use vstd::prelude::*;

pub mod request;
pub mod route;
pub mod auth;
pub mod page;
pub mod shell;

verus! {

} // verus!
