use vstd::prelude::*;
use vstd::string::StringSliceAdditionalSpecFns;

verus! {

/// Pages of the nested settings scope.
#[derive(PartialEq, Eq, Structural, Clone, Copy, Debug)]
pub enum SettingsRoute {
    Profile,
    Friends,
    Theme,
    NotFound,
}

/// The navigable pages of the application.
#[derive(PartialEq, Eq, Structural, Clone, Copy, Debug)]
pub enum Route {
    Post { id: u64 },
    Posts,
    Author { id: u64 },
    Authors,
    Home,
    Settings { sub: SettingsRoute },
    NotFound,
}

pub open spec fn is_digit(b: u8) -> bool {
    48u8 <= b <= 57u8
}

/// The number written by the decimal digits `s`.
pub open spec fn digits_value(s: Seq<u8>) -> nat
    decreases s.len(),
{
    if s.len() == 0 {
        0
    } else {
        digits_value(s.drop_last()) * 10 + (s.last() - 48u8) as nat
    }
}

/// A `:id` segment: one or more decimal digits whose value fits in `u64`.
pub open spec fn is_id(s: Seq<u8>) -> bool {
    &&& 0 < s.len()
    &&& forall|i: int| 0 <= i < s.len() ==> is_digit(#[trigger] s[i])
    &&& digits_value(s) <= u64::MAX
}

/// `/`
pub open spec fn lit_root() -> Seq<u8> {
    seq![47u8]
}

/// `/posts`
pub open spec fn lit_posts() -> Seq<u8> {
    seq![47u8, 112u8, 111u8, 115u8, 116u8, 115u8]
}

/// `/authors`
pub open spec fn lit_authors() -> Seq<u8> {
    seq![47u8, 97u8, 117u8, 116u8, 104u8, 111u8, 114u8, 115u8]
}

/// `/settings`
pub open spec fn lit_settings() -> Seq<u8> {
    seq![47u8, 115u8, 101u8, 116u8, 116u8, 105u8, 110u8, 103u8, 115u8]
}

/// `profile`
pub open spec fn lit_profile() -> Seq<u8> {
    seq![112u8, 114u8, 111u8, 102u8, 105u8, 108u8, 101u8]
}

/// `friends`
pub open spec fn lit_friends() -> Seq<u8> {
    seq![102u8, 114u8, 105u8, 101u8, 110u8, 100u8, 115u8]
}

/// `theme`
pub open spec fn lit_theme() -> Seq<u8> {
    seq![116u8, 104u8, 101u8, 109u8, 101u8]
}

/// `p` is `scope` followed by a slash and a non-empty remainder.
pub open spec fn has_scope(p: Seq<u8>, scope: Seq<u8>) -> bool {
    &&& p.len() > scope.len() + 1
    &&& p.subrange(0, scope.len() as int) == scope
    &&& p[scope.len() as int] == 47u8
}

/// What follows `scope` and its slash.
pub open spec fn rest_after(p: Seq<u8>, scope: Seq<u8>) -> Seq<u8> {
    p.subrange(scope.len() + 1int, p.len() as int)
}

/// `p` is `scope/:id`.
pub open spec fn has_id(p: Seq<u8>, scope: Seq<u8>) -> bool {
    has_scope(p, scope) && is_id(rest_after(p, scope))
}

pub open spec fn id_of(p: Seq<u8>, scope: Seq<u8>) -> u64 {
    digits_value(rest_after(p, scope)) as u64
}

/// The secondary resolver of the settings scope, on what follows `/settings/`.
pub open spec fn settings_of(sub: Seq<u8>) -> SettingsRoute {
    if sub == lit_profile() {
        SettingsRoute::Profile
    } else if sub == lit_friends() {
        SettingsRoute::Friends
    } else if sub == lit_theme() {
        SettingsRoute::Theme
    } else {
        SettingsRoute::NotFound
    }
}

/// The route of a path. A settings sub-path that the nested resolver does not
/// know falls back to the top-level `NotFound`.
pub open spec fn route_of(p: Seq<u8>) -> Route {
    if p == lit_root() {
        Route::Home
    } else if p == lit_posts() {
        Route::Posts
    } else if p == lit_authors() {
        Route::Authors
    } else if has_id(p, lit_posts()) {
        Route::Post { id: id_of(p, lit_posts()) }
    } else if has_id(p, lit_authors()) {
        Route::Author { id: id_of(p, lit_authors()) }
    } else if has_scope(p, lit_settings()) && settings_of(rest_after(p, lit_settings()))
        != SettingsRoute::NotFound {
        Route::Settings { sub: settings_of(rest_after(p, lit_settings())) }
    } else {
        Route::NotFound
    }
}

/// `p[start..]` begins with `lit`.
fn has_at(p: &[u8], start: usize, lit: &Vec<u8>) -> (r: bool)
    requires
        start <= p@.len(),
    ensures
        r == (start + lit@.len() <= p@.len() && p@.subrange(
            start as int,
            start + lit@.len(),
        ) == lit@),
{
    if lit.len() > p.len() - start {
        return false;
    }
    let mut i: usize = 0;
    while i < lit.len()
        invariant
            start + lit@.len() <= p@.len(),
            p@.len() <= usize::MAX,
            i <= lit@.len(),
            forall|j: int| 0 <= j < i ==> p@[start + j] == lit@[j],
        decreases lit@.len() - i,
    {
        if p[start + i] != lit[i] {
            assert(p@.subrange(start as int, start + lit@.len())[i as int] != lit@[i as int]);
            return false;
        }
        i = i + 1;
    }
    assert(p@.subrange(start as int, start + lit@.len()) =~= lit@);
    true
}

/// `p` is exactly `lit`.
fn is_exactly(p: &[u8], lit: &Vec<u8>) -> (r: bool)
    ensures
        r == (p@ == lit@),
{
    assert(p@ =~= p@.subrange(0, p@.len() as int));
    p.len() == lit.len() && has_at(p, 0, lit)
}

proof fn lemma_digits_value_push(s: Seq<u8>, b: u8)
    ensures
        digits_value(s.push(b)) == digits_value(s) * 10 + (b - 48u8) as nat,
{
    assert(s.push(b).drop_last() =~= s);
}

/// Reads `p[start..]` as an `:id` segment.
fn parse_id(p: &[u8], start: usize) -> (r: Option<u64>)
    requires
        start <= p@.len(),
    ensures
        r is Some <==> is_id(p@.subrange(start as int, p@.len() as int)),
        r matches Some(n) ==> n == digits_value(p@.subrange(start as int, p@.len() as int)),
{
    let ghost s = p@.subrange(start as int, p@.len() as int);
    if start == p.len() {
        return None;
    }
    let mut value: u64 = 0;
    let mut i: usize = start;
    while i < p.len()
        invariant
            start < p@.len(),
            s == p@.subrange(start as int, p@.len() as int),
            start <= i <= p@.len(),
            forall|j: int| start <= j < i ==> is_digit(#[trigger] p@[j]),
            value == digits_value(p@.subrange(start as int, i as int)),
        decreases p@.len() - i,
    {
        let b = p[i];
        proof {
            lemma_digits_value_push(p@.subrange(start as int, i as int), b);
            assert(p@.subrange(start as int, i + 1) =~= p@.subrange(start as int, i as int).push(
                b,
            ));
        }
        if b < 48u8 || b > 57u8 {
            assert(!is_digit(s[i - start]));
            return None;
        }
        let d: u64 = (b - 48u8) as u64;
        if value > (u64::MAX - d) / 10 {
            proof {
                let t = p@.subrange(start as int, i + 1);
                assert(digits_value(t) > u64::MAX) by (nonlinear_arith)
                    requires
                        value > (u64::MAX - d) / 10,
                        digits_value(t) == value * 10 + d,
                        d <= 9,
                ;
                lemma_digits_value_monotone(s, (i + 1 - start) as int);
                assert(s.subrange(0, i + 1 - start) =~= t);
            }
            return None;
        }
        assert(value * 10 + d <= u64::MAX) by (nonlinear_arith)
            requires
                value <= (u64::MAX - d) / 10,
                d <= 9,
        ;
        value = value * 10 + d;
        i = i + 1;
    }
    assert(p@.subrange(start as int, i as int) =~= s);
    Some(value)
}

/// A value written by some leading digits never exceeds that of all of them.
proof fn lemma_digits_value_monotone(s: Seq<u8>, k: int)
    requires
        0 <= k <= s.len(),
    ensures
        digits_value(s.subrange(0, k)) <= digits_value(s),
    decreases s.len() - k,
{
    if k < s.len() {
        lemma_digits_value_monotone(s, k + 1);
        assert(s.subrange(0, k + 1).drop_last() =~= s.subrange(0, k));
    } else {
        assert(s.subrange(0, k) =~= s);
    }
}

fn root_lit() -> (v: Vec<u8>)
    ensures
        v@ == lit_root(),
{
    let v = vec![47u8];
    assert(v@ =~= lit_root());
    v
}

fn posts_lit() -> (v: Vec<u8>)
    ensures
        v@ == lit_posts(),
{
    let v = vec![47u8, 112u8, 111u8, 115u8, 116u8, 115u8];
    assert(v@ =~= lit_posts());
    v
}

fn authors_lit() -> (v: Vec<u8>)
    ensures
        v@ == lit_authors(),
{
    let v = vec![47u8, 97u8, 117u8, 116u8, 104u8, 111u8, 114u8, 115u8];
    assert(v@ =~= lit_authors());
    v
}

fn settings_lit() -> (v: Vec<u8>)
    ensures
        v@ == lit_settings(),
{
    let v = vec![47u8, 115u8, 101u8, 116u8, 116u8, 105u8, 110u8, 103u8, 115u8];
    assert(v@ =~= lit_settings());
    v
}

fn profile_lit() -> (v: Vec<u8>)
    ensures
        v@ == lit_profile(),
{
    let v = vec![112u8, 114u8, 111u8, 102u8, 105u8, 108u8, 101u8];
    assert(v@ =~= lit_profile());
    v
}

fn friends_lit() -> (v: Vec<u8>)
    ensures
        v@ == lit_friends(),
{
    let v = vec![102u8, 114u8, 105u8, 101u8, 110u8, 100u8, 115u8];
    assert(v@ =~= lit_friends());
    v
}

fn theme_lit() -> (v: Vec<u8>)
    ensures
        v@ == lit_theme(),
{
    let v = vec![116u8, 104u8, 101u8, 109u8, 101u8];
    assert(v@ =~= lit_theme());
    v
}

/// Where `p` is `scope/` followed by more, the index just past the slash.
fn scope_end(p: &[u8], scope: &Vec<u8>) -> (r: Option<usize>)
    ensures
        r is Some <==> has_scope(p@, scope@),
        r matches Some(k) ==> k == scope@.len() + 1,
{
    if has_at(p, 0, scope) && p.len() - scope.len() > 1 && p[scope.len()] == 47u8 {
        Some(scope.len() + 1)
    } else {
        None
    }
}

/// The secondary resolver of the settings scope: `sub` is what follows
/// `/settings/`.
pub fn resolve_settings(sub: &[u8]) -> (r: SettingsRoute)
    ensures
        r == settings_of(sub@),
{
    if is_exactly(sub, &profile_lit()) {
        SettingsRoute::Profile
    } else if is_exactly(sub, &friends_lit()) {
        SettingsRoute::Friends
    } else if is_exactly(sub, &theme_lit()) {
        SettingsRoute::Theme
    } else {
        SettingsRoute::NotFound
    }
}

/// Resolves a path given as bytes. Never fails: a path that matches no
/// declared pattern, or whose `:id` is not a `u64`, resolves to `NotFound`.
pub fn resolve_bytes(p: &[u8]) -> (r: Route)
    ensures
        r == route_of(p@),
{
    let posts = posts_lit();
    let authors = authors_lit();
    let settings = settings_lit();
    if is_exactly(p, &root_lit()) {
        return Route::Home;
    }
    if is_exactly(p, &posts) {
        return Route::Posts;
    }
    if is_exactly(p, &authors) {
        return Route::Authors;
    }
    if let Some(k) = scope_end(p, &posts) {
        if let Some(id) = parse_id(p, k) {
            return Route::Post { id };
        }
    }
    if let Some(k) = scope_end(p, &authors) {
        if let Some(id) = parse_id(p, k) {
            return Route::Author { id };
        }
    }
    if let Some(k) = scope_end(p, &settings) {
        let sub = resolve_settings(vstd::slice::slice_subrange(p, k, p.len()));
        if sub != SettingsRoute::NotFound {
            return Route::Settings { sub };
        }
    }
    Route::NotFound
}

/// Resolves a URL path to its route; pure and total.
pub fn resolve(path: &str) -> (r: Route)
    ensures
        r == route_of(path.spec_bytes()),
{
    resolve_bytes(path.as_bytes())
}

/// `/404`
pub open spec fn lit_not_found() -> Seq<u8> {
    seq![47u8, 52u8, 48u8, 52u8]
}

/// `p` matches one of the declared patterns: `/`, `/posts`, `/posts/:id`,
/// `/authors`, `/authors/:id`, `/404` and `/settings/profile|friends|theme|404`.
pub open spec fn matches_declared(p: Seq<u8>) -> bool {
    ||| p == lit_root()
    ||| p == lit_posts()
    ||| p == lit_authors()
    ||| p == lit_not_found()
    ||| has_id(p, lit_posts())
    ||| has_id(p, lit_authors())
    ||| has_scope(p, lit_settings()) && {
        let sub = rest_after(p, lit_settings());
        ||| sub == lit_profile()
        ||| sub == lit_friends()
        ||| sub == lit_theme()
        ||| sub == lit_not_found().drop_first()
    }
}

/// The decimal digits of `n`, without leading zeros.
pub open spec fn decimal(n: nat) -> Seq<u8>
    decreases n,
{
    if n < 10 {
        seq![(48 + n) as u8]
    } else {
        decimal(n / 10).push((48 + n % 10) as u8)
    }
}

proof fn lemma_decimal(n: nat)
    ensures
        decimal(n).len() > 0,
        forall|i: int| 0 <= i < decimal(n).len() ==> is_digit(#[trigger] decimal(n)[i]),
        digits_value(decimal(n)) == n,
    decreases n,
{
    if n < 10 {
        let d = decimal(n);
        assert(d.drop_last() =~= Seq::<u8>::empty());
        assert(d.last() == (48 + n) as u8);
        assert(digits_value(d.drop_last()) == 0);
        assert(digits_value(d) == n);
    } else {
        lemma_decimal(n / 10);
        lemma_digits_value_push(decimal(n / 10), (48 + n % 10) as u8);
        assert(decimal(n).drop_last() =~= decimal(n / 10));
        assert((n / 10) * 10 + n % 10 == n) by (nonlinear_arith);
        assert(digits_value(decimal(n)) == digits_value(decimal(n / 10)) * 10 + n % 10);
    }
}

/// Every path that matches no declared pattern resolves to `NotFound`.
pub proof fn lemma_unmatched_is_not_found(p: Seq<u8>)
    requires
        !matches_declared(p),
    ensures
        route_of(p) == Route::NotFound,
{
    if has_scope(p, lit_settings()) {
        assert(settings_of(rest_after(p, lit_settings())) == SettingsRoute::NotFound);
    }
}

/// `/posts/` followed by the decimal digits of any `u64` resolves to that post;
/// `/posts/` followed by anything that is not a `u64` resolves to `NotFound`.
pub proof fn lemma_post_ids(n: u64, s: Seq<u8>)
    ensures
        route_of(lit_posts() + seq![47u8] + decimal(n as nat)) == (Route::Post { id: n }),
        !is_id(s) ==> route_of(lit_posts() + seq![47u8] + s) == Route::NotFound,
{
    let scope = lit_posts();
    let p = scope + seq![47u8] + decimal(n as nat);
    lemma_decimal(n as nat);
    assert(p.subrange(0, scope.len() as int) =~= scope);
    assert(rest_after(p, scope) =~= decimal(n as nat));
    assert(p[1] == 112u8);
    assert(p != lit_root());
    assert(p != lit_posts());
    assert(p != lit_authors());
    let q = scope + seq![47u8] + s;
    assert(q.subrange(0, scope.len() as int) =~= scope);
    assert(q[1] == 112u8);
    assert(q.len() > 1 ==> q != lit_root());
    assert(q != lit_posts());
    assert(q != lit_authors());
    if q.len() > lit_authors().len() {
        assert(q.subrange(0, lit_authors().len() as int)[1] == 112u8);
    }
    if q.len() > lit_settings().len() {
        assert(q.subrange(0, lit_settings().len() as int)[1] == 112u8);
    }
    if p.len() > lit_authors().len() {
        assert(p.subrange(0, lit_authors().len() as int)[1] == 112u8);
    }
    if s.len() > 0 {
        assert(rest_after(q, scope) =~= s);
    }
}

} // verus!
