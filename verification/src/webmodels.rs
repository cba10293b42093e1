//! Client-facing models and the HTML escaping of user text.

use vstd::prelude::*;
use crate::text::{chars_of, push_char, truncate_bytes, truncate_ok, truncated};
use crate::db::methods::{MESSAGE_MAX_BYTES, USERNAME_MAX_BYTES};

verus! {

/// A status code and message sent back to a client.
pub struct ClientStatus {
    pub code: i32,
    pub message: String,
}

/// A token given as a GET argument.
pub struct OwnToken {
    pub token: String,
}

/// A numeric identifier taken from a path.
pub struct GenericId {
    pub id: i32,
}

/// Transaction and template identifiers taken from a path.
pub struct SendMailId {
    pub tr_id: i32,
    pub tpl_id: i32,
}

/// The secret key of a payment callback.
pub struct CallbackKey {
    pub callback_key: String,
}

pub open spec fn ent_amp() -> Seq<char> {
    seq!['&', 'a', 'm', 'p', ';']
}

pub open spec fn ent_lt() -> Seq<char> {
    seq!['&', 'l', 't', ';']
}

pub open spec fn ent_gt() -> Seq<char> {
    seq!['&', 'g', 't', ';']
}

pub open spec fn ent_quot() -> Seq<char> {
    seq!['&', 'q', 'u', 'o', 't', ';']
}

pub open spec fn ent_apos() -> Seq<char> {
    seq!['&', '#', '0', '3', '9', ';']
}

/// Whether `s` begins with `p`.
pub open spec fn starts_with(s: Seq<char>, p: Seq<char>) -> bool {
    p.len() <= s.len() && s.take(p.len() as int) == p
}

/// The HTML entity that `s` begins with, if any, among the five that
/// sanitizing produces.
pub open spec fn entity_prefix(s: Seq<char>) -> Option<Seq<char>> {
    if starts_with(s, ent_amp()) {
        Some(ent_amp())
    } else if starts_with(s, ent_lt()) {
        Some(ent_lt())
    } else if starts_with(s, ent_gt()) {
        Some(ent_gt())
    } else if starts_with(s, ent_quot()) {
        Some(ent_quot())
    } else if starts_with(s, ent_apos()) {
        Some(ent_apos())
    } else {
        None
    }
}

/// What a character other than `&` becomes.
pub open spec fn escape_char(c: char) -> Seq<char> {
    if c == '<' {
        ent_lt()
    } else if c == '>' {
        ent_gt()
    } else if c == '"' {
        ent_quot()
    } else if c == '\'' {
        ent_apos()
    } else {
        seq![c]
    }
}

/// The sanitized text: `<`, `>`, `"` and `'` become their entities; an `&`
/// that already begins one of the five entities is kept with its entity,
/// any other `&` becomes `&amp;`; all other characters stay.
pub open spec fn sanitized(s: Seq<char>) -> Seq<char>
    decreases s.len(),
{
    if s.len() == 0 {
        Seq::empty()
    } else if s[0] == '&' {
        match entity_prefix(s) {
            Some(e) => e + sanitized(s.skip(e.len() as int)),
            None => ent_amp() + sanitized(s.skip(1)),
        }
    } else {
        escape_char(s[0]) + sanitized(s.skip(1))
    }
}

/// Pushes the characters of `p` onto `r`.
fn push_all(r: &mut String, p: &Vec<char>)
    ensures
        final(r)@ == old(r)@ + p@,
{
    let mut k: usize = 0;
    while k < p.len()
        invariant
            k <= p@.len(),
            r@ == old(r)@ + p@.take(k as int),
        decreases p.len() - k,
    {
        push_char(r, p[k]);
        assert(p@.take(k + 1) =~= p@.take(k as int).push(p@[k as int]));
        k = k + 1;
    }
    assert(p@.take(k as int) =~= p@);
}

/// Whether `v` holds `pat` at position `i`.
fn holds_at(v: &Vec<char>, i: usize, pat: &Vec<char>) -> (r: bool)
    requires
        i <= v@.len(),
    ensures
        r == starts_with(v@.skip(i as int), pat@),
{
    if pat.len() > v.len() - i {
        return false;
    }
    let mut k: usize = 0;
    while k < pat.len()
        invariant
            k <= pat@.len(),
            i <= v@.len(),
            v@.len() <= usize::MAX,
            i + pat@.len() <= v@.len(),
            forall|j: int| 0 <= j < k ==> v@[i + j] == pat@[j],
        decreases pat.len() - k,
    {
        if v[i + k] != pat[k] {
            assert(v@.skip(i as int).take(pat@.len() as int)[k as int] != pat@[k as int]);
            return false;
        }
        k = k + 1;
    }
    assert(v@.skip(i as int).take(pat@.len() as int) =~= pat@);
    true
}

/// Escapes HTML in `s`, leaving entities that are already escaped as they are.
pub fn sanitize(s: &str) -> (r: String)
    ensures
        r@ == sanitized(s@),
{
    let amp: Vec<char> = vec!['&', 'a', 'm', 'p', ';'];
    let lt: Vec<char> = vec!['&', 'l', 't', ';'];
    let gt: Vec<char> = vec!['&', 'g', 't', ';'];
    let quot: Vec<char> = vec!['&', 'q', 'u', 'o', 't', ';'];
    let apos: Vec<char> = vec!['&', '#', '0', '3', '9', ';'];
    assert(amp@ == ent_amp());
    assert(lt@ == ent_lt());
    assert(gt@ == ent_gt());
    assert(quot@ == ent_quot());
    assert(apos@ == ent_apos());
    let v = chars_of(s);
    let mut r = String::new();
    let mut i: usize = 0;
    assert(v@.skip(0) =~= v@);
    while i < v.len()
        invariant
            i <= v@.len(),
            v@ == s@,
            amp@ == ent_amp(),
            lt@ == ent_lt(),
            gt@ == ent_gt(),
            quot@ == ent_quot(),
            apos@ == ent_apos(),
            r@ + sanitized(v@.skip(i as int)) == sanitized(s@),
        decreases v.len() - i,
    {
        let ghost rest = v@.skip(i as int);
        let ghost r0 = r@;
        let c = v[i];
        assert(rest[0] == c);
        if c == '&' {
            let piece: &Vec<char> = if holds_at(&v, i, &amp) {
                &amp
            } else if holds_at(&v, i, &lt) {
                &lt
            } else if holds_at(&v, i, &gt) {
                &gt
            } else if holds_at(&v, i, &quot) {
                &quot
            } else if holds_at(&v, i, &apos) {
                &apos
            } else {
                &amp
            };
            let step: usize = if holds_at(&v, i, piece) { piece.len() } else { 1 };
            proof {
                if entity_prefix(rest) is Some {
                    assert(step == piece@.len());
                    assert(entity_prefix(rest) == Some(piece@));
                } else {
                    assert(piece@ == ent_amp());
                    assert(step == 1);
                }
                assert(sanitized(rest) == piece@ + sanitized(rest.skip(step as int)));
                assert(rest.skip(step as int) =~= v@.skip(i + step));
            }
            push_all(&mut r, piece);
            assert(r0 + (piece@ + sanitized(v@.skip(i + step))) =~= r@ + sanitized(v@.skip(i + step)));
            i = i + step;
        } else {
            if c == '<' {
                push_all(&mut r, &lt);
            } else if c == '>' {
                push_all(&mut r, &gt);
            } else if c == '"' {
                push_all(&mut r, &quot);
            } else if c == '\'' {
                push_all(&mut r, &apos);
            } else {
                push_char(&mut r, c);
            }
            proof {
                assert(r@ =~= r0 + escape_char(c));
                assert(rest.skip(1) =~= v@.skip(i + 1));
                assert(r0 + (escape_char(c) + sanitized(v@.skip(i + 1))) =~= r@ + sanitized(v@.skip(i + 1)));
            }
            i = i + 1;
        }
    }
    assert(v@.skip(i as int) =~= Seq::<char>::empty());
    assert(r@ + Seq::<char>::empty() =~= r@);
    r
}

pub open spec fn is_entity(e: Seq<char>) -> bool {
    e == ent_amp() || e == ent_lt() || e == ent_gt() || e == ent_quot() || e == ent_apos()
}

/// Characters that never appear raw in a sanitized text.
pub open spec fn is_markup_char(c: char) -> bool {
    c == '<' || c == '>' || c == '"' || c == '\''
}

proof fn lemma_entity_then(e: Seq<char>, t: Seq<char>)
    requires
        is_entity(e),
    ensures
        sanitized(e + t) == e + sanitized(t),
{
    let s = e + t;
    assert(s[0] == '&');
    assert(s.take(e.len() as int) =~= e);
    assert(s.skip(e.len() as int) =~= t);
    if e != ent_amp() {
        assert(s[1] == e[1]);
        assert(!starts_with(s, ent_amp())) by {
            if starts_with(s, ent_amp()) {
                assert(s.take(5)[1] == 'a');
            }
        }
    }
    if e != ent_amp() && e != ent_lt() {
        assert(!starts_with(s, ent_lt())) by {
            if starts_with(s, ent_lt()) {
                assert(s.take(4)[1] == 'l');
            }
        }
    }
    if e == ent_quot() || e == ent_apos() {
        assert(!starts_with(s, ent_gt())) by {
            if starts_with(s, ent_gt()) {
                assert(s.take(4)[1] == 'g');
            }
        }
    }
    if e == ent_apos() {
        assert(!starts_with(s, ent_quot())) by {
            if starts_with(s, ent_quot()) {
                assert(s.take(6)[1] == 'q');
            }
        }
    }
    assert(entity_prefix(s) == Some(e));
}

proof fn lemma_plain_then(c: char, t: Seq<char>)
    requires
        c != '&',
        !is_markup_char(c),
    ensures
        sanitized(seq![c] + t) == seq![c] + sanitized(t),
{
    let s = seq![c] + t;
    assert(s[0] == c);
    assert(s.skip(1) =~= t);
}

/// Sanitizing twice gives what sanitizing once gave: text that has already
/// been converted is left as it is.
pub proof fn lemma_sanitize_idempotent(s: Seq<char>)
    ensures
        sanitized(sanitized(s)) == sanitized(s),
    decreases s.len(),
{
    if s.len() > 0 {
        if s[0] == '&' {
            match entity_prefix(s) {
                Some(e) => {
                    lemma_sanitize_idempotent(s.skip(e.len() as int));
                    lemma_entity_then(e, sanitized(s.skip(e.len() as int)));
                },
                None => {
                    lemma_sanitize_idempotent(s.skip(1));
                    lemma_entity_then(ent_amp(), sanitized(s.skip(1)));
                },
            }
        } else {
            lemma_sanitize_idempotent(s.skip(1));
            let c = s[0];
            if is_markup_char(c) {
                lemma_entity_then(escape_char(c), sanitized(s.skip(1)));
            } else {
                lemma_plain_then(c, sanitized(s.skip(1)));
            }
        }
    }
}

/// A sanitized text holds no raw `<`, `>`, `"` or `'`.
pub proof fn lemma_sanitize_no_markup(s: Seq<char>)
    ensures
        forall|i: int| 0 <= i < sanitized(s).len() ==> !is_markup_char(#[trigger] sanitized(s)[i]),
    decreases s.len(),
{
    if s.len() > 0 {
        let k: int = if s[0] == '&' {
            match entity_prefix(s) {
                Some(e) => e.len() as int,
                None => 1,
            }
        } else {
            1
        };
        lemma_sanitize_no_markup(s.skip(k));
        let piece = if s[0] == '&' {
            match entity_prefix(s) {
                Some(e) => e,
                None => ent_amp(),
            }
        } else {
            escape_char(s[0])
        };
        assert(sanitized(s) == piece + sanitized(s.skip(k)));
        assert forall|i: int| 0 <= i < sanitized(s).len() implies !is_markup_char(#[trigger] sanitized(s)[i]) by {
            if i < piece.len() {
                assert(sanitized(s)[i] == piece[i]);
            } else {
                assert(sanitized(s)[i] == sanitized(s.skip(k))[i - piece.len()]);
            }
        }
    }
}

/// Text that sanitizing leaves as it is: no raw `<`, `>`, `"` or `'`, and
/// every `&` begins one of the five entities.
pub open spec fn is_clean(s: Seq<char>) -> bool {
    forall|i: int| 0 <= i < s.len() ==> !is_markup_char(#[trigger] s[i]) && (s[i] == '&' ==> entity_prefix(
        s.skip(i)) is Some)
}

proof fn lemma_entity_prefix_starts(s: Seq<char>)
    requires
        entity_prefix(s) is Some,
    ensures
        is_entity(entity_prefix(s)->0),
        starts_with(s, entity_prefix(s)->0),
        s == entity_prefix(s)->0 + s.skip(entity_prefix(s)->0.len() as int),
{
    let e = entity_prefix(s)->0;
    assert(s =~= s.take(e.len() as int) + s.skip(e.len() as int));
}

proof fn lemma_starts_entity_prefix(s: Seq<char>, e: Seq<char>)
    requires
        is_entity(e),
        starts_with(s, e),
    ensures
        entity_prefix(s) is Some,
{
}

proof fn lemma_clean_skip(s: Seq<char>, k: int)
    requires
        is_clean(s),
        0 <= k <= s.len(),
    ensures
        is_clean(s.skip(k)),
{
    assert forall|j: int| 0 <= j < s.skip(k).len() implies !is_markup_char(#[trigger] s.skip(k)[j]) && (s.skip(k)[j]
        == '&' ==> entity_prefix(s.skip(k).skip(j)) is Some) by {
        assert(s.skip(k)[j] == s[j + k]);
        assert(s.skip(k).skip(j) =~= s.skip(j + k));
    }
}

proof fn lemma_clean_is_fixed(s: Seq<char>)
    requires
        is_clean(s),
    ensures
        sanitized(s) == s,
    decreases s.len(),
{
    if s.len() > 0 {
        assert(s.skip(0) =~= s);
        if s[0] == '&' {
            lemma_entity_prefix_starts(s);
            let e = entity_prefix(s)->0;
            lemma_clean_skip(s, e.len() as int);
            lemma_clean_is_fixed(s.skip(e.len() as int));
        } else {
            assert(!is_markup_char(s[0]));
            lemma_clean_skip(s, 1);
            lemma_clean_is_fixed(s.skip(1));
            assert(s =~= seq![s[0]] + s.skip(1));
        }
    }
}

proof fn lemma_sanitized_amp(s: Seq<char>)
    ensures
        forall|i: int| 0 <= i < sanitized(s).len() && #[trigger] sanitized(s)[i] == '&' ==> entity_prefix(
            sanitized(s).skip(i)) is Some,
    decreases s.len(),
{
    if s.len() > 0 {
        let k: int = if s[0] == '&' {
            match entity_prefix(s) {
                Some(e) => e.len() as int,
                None => 1,
            }
        } else {
            1
        };
        lemma_sanitized_amp(s.skip(k));
        let piece = if s[0] == '&' {
            match entity_prefix(s) {
                Some(e) => e,
                None => ent_amp(),
            }
        } else {
            escape_char(s[0])
        };
        if s[0] == '&' && entity_prefix(s) is Some {
            lemma_entity_prefix_starts(s);
        }
        let rest = sanitized(s.skip(k));
        assert(sanitized(s) == piece + rest);
        assert forall|i: int| 0 <= i < sanitized(s).len() && #[trigger] sanitized(s)[i] == '&' implies entity_prefix(
            sanitized(s).skip(i)) is Some by {
            if i < piece.len() {
                assert(sanitized(s)[i] == piece[i]);
                assert(i == 0);
                assert(sanitized(s).skip(0) =~= sanitized(s));
                assert(sanitized(s).take(piece.len() as int) =~= piece);
                lemma_starts_entity_prefix(sanitized(s), piece);
            } else {
                assert(sanitized(s)[i] == rest[i - piece.len()]);
                assert(sanitized(s).skip(i) =~= rest.skip(i - piece.len()));
            }
        }
    }
}

/// Sanitizing leaves a text unchanged exactly when it is clean: it holds no
/// raw `<`, `>`, `"` or `'`, and each of its `&` begins an entity.
pub proof fn lemma_sanitize_fixed_points(s: Seq<char>)
    ensures
        sanitized(s) == s <==> is_clean(s),
{
    if is_clean(s) {
        lemma_clean_is_fixed(s);
    }
    if sanitized(s) == s {
        lemma_sanitize_no_markup(s);
        lemma_sanitized_amp(s);
        assert forall|i: int| 0 <= i < s.len() implies !is_markup_char(#[trigger] s[i]) && (s[i] == '&'
            ==> entity_prefix(s.skip(i)) is Some) by {
            assert(sanitized(s)[i] == s[i]);
        }
    }
}

/// One star of a star post: its type, and whether each of its two
/// coordinates is a percentage in `[0, 100)` (the coordinates themselves are
/// floats and are compared outside the library).
pub struct StarChoice {
    pub startype: i32,
    pub x_in_range: bool,
    pub y_in_range: bool,
}

/// A kind of star and its price in gems.
pub struct StarKind {
    pub startype: i32,
    pub price: u16,
}

/// Why a star post is refused.
#[derive(Debug, Clone, Copy, PartialEq, Eq, Structural)]
pub enum StarRefusal {
    /// The token names no transaction whose stars are still to be placed.
    InvalidToken,
    /// The star at this position has a type that is not in the catalog.
    InvalidStartype(usize),
    /// The star at this position lies outside the sky.
    InvalidPct(usize),
    /// The stars cost this many gems, more than the post may spend.
    TooManyStars(u128),
}

/// The price of the first kind in the catalog with type `t`, if any.
pub open spec fn price_of(catalog: Seq<StarKind>, t: i32) -> Option<u16>
    decreases catalog.len(),
{
    if catalog.len() == 0 {
        None
    } else if catalog[0].startype == t {
        Some(catalog[0].price)
    } else {
        price_of(catalog.skip(1), t)
    }
}

/// The first refusal among the stars, in order: an unknown type, then a
/// coordinate out of range.
pub open spec fn stars_refusal(stars: Seq<StarChoice>, catalog: Seq<StarKind>) -> Option<StarRefusal>
    decreases stars.len(),
{
    if stars.len() == 0 {
        None
    } else {
        match stars_refusal(stars.drop_last(), catalog) {
            Some(e) => Some(e),
            None => {
                let i = (stars.len() - 1) as usize;
                let st = stars.last();
                if price_of(catalog, st.startype) is None {
                    Some(StarRefusal::InvalidStartype(i))
                } else if !st.x_in_range || !st.y_in_range {
                    Some(StarRefusal::InvalidPct(i))
                } else {
                    None
                }
            },
        }
    }
}

/// What the stars cost, each at the price of its type.
pub open spec fn stars_price(stars: Seq<StarChoice>, catalog: Seq<StarKind>) -> int
    decreases stars.len(),
{
    if stars.len() == 0 {
        0
    } else {
        stars_price(stars.drop_last(), catalog) + match price_of(catalog, stars.last().startype) {
            Some(p) => p as int,
            None => 0,
        }
    }
}

proof fn lemma_stars_price_bound(stars: Seq<StarChoice>, catalog: Seq<StarKind>)
    ensures
        0 <= stars_price(stars, catalog) <= 65535 * stars.len(),
    decreases stars.len(),
{
    if stars.len() > 0 {
        lemma_stars_price_bound(stars.drop_last(), catalog);
    }
}

/// The price of type `t` in the catalog.
fn find_price(catalog: &Vec<StarKind>, t: i32) -> (r: Option<u16>)
    ensures
        r == price_of(catalog@, t),
{
    let mut i: usize = 0;
    assert(catalog@.skip(0) =~= catalog@);
    while i < catalog.len()
        invariant
            i <= catalog@.len(),
            price_of(catalog@, t) == price_of(catalog@.skip(i as int), t),
        decreases catalog.len() - i,
    {
        assert(catalog@.skip(i as int).skip(1) =~= catalog@.skip(i + 1));
        if catalog[i].startype == t {
            return Some(catalog[i].price);
        }
        i = i + 1;
    }
    None
}

/// Checks a star post: every star must have a known type and lie within the
/// sky, checked star by star in order, and together they must cost at most
/// `max_gems`. Then gives the username and message sanitized and cut to 15
/// and 50 bytes.
pub fn validate_star_post(username: &str, message: &str, stars: &Vec<StarChoice>, catalog: &Vec<StarKind>,
    max_gems: i32) -> (r: Result<(String, String), StarRefusal>)
    requires
        stars_refusal(stars@, catalog@) is None && stars_price(stars@, catalog@) <= max_gems ==> truncate_ok(
            sanitized(username@), USERNAME_MAX_BYTES as int) && truncate_ok(sanitized(message@),
            MESSAGE_MAX_BYTES as int),
    ensures
        stars_refusal(stars@, catalog@) matches Some(e) ==> r == Err::<(String, String), StarRefusal>(e),
        stars_refusal(stars@, catalog@) is None && stars_price(stars@, catalog@) > max_gems ==> (r matches Err(
            StarRefusal::TooManyStars(spent)) && spent == stars_price(stars@, catalog@)),
        stars_refusal(stars@, catalog@) is None && stars_price(stars@, catalog@) <= max_gems ==> (r matches Ok((u, m))
            && u@ == truncated(sanitized(username@), USERNAME_MAX_BYTES as int) && m@ == truncated(
            sanitized(message@), MESSAGE_MAX_BYTES as int)),
{
    let mut spent: u128 = 0;
    let mut i: usize = 0;
    while i < stars.len()
        invariant
            i <= stars@.len(),
            stars_refusal(stars@.take(i as int), catalog@) is None,
            spent == stars_price(stars@.take(i as int), catalog@),
            spent <= 65535 * i,
        decreases stars.len() - i,
    {
        assert(stars@.take(i + 1).drop_last() =~= stars@.take(i as int));
        assert(stars@.take(i + 1).last() == stars@[i as int]);
        let price = match find_price(catalog, stars[i].startype) {
            Some(p) => p,
            None => {
                proof { lemma_refusal_extends(stars@, catalog@, i + 1); }
                return Err(StarRefusal::InvalidStartype(i));
            },
        };
        if !stars[i].x_in_range || !stars[i].y_in_range {
            proof { lemma_refusal_extends(stars@, catalog@, i + 1); }
            return Err(StarRefusal::InvalidPct(i));
        }
        assert(65535 * (i + 1) <= 65535 * 18446744073709551616) by (nonlinear_arith)
            requires
                i + 1 <= 18446744073709551616int,
        ;
        spent = spent + price as u128;
        i = i + 1;
    }
    assert(stars@.take(i as int) =~= stars@);
    if max_gems < 0 || spent > max_gems as u128 {
        return Err(StarRefusal::TooManyStars(spent));
    }
    let u = truncate_bytes(sanitize(username), USERNAME_MAX_BYTES);
    let m = truncate_bytes(sanitize(message), MESSAGE_MAX_BYTES);
    Ok((u, m))
}

proof fn lemma_refusal_extends(stars: Seq<StarChoice>, catalog: Seq<StarKind>, n: int)
    requires
        0 <= n <= stars.len(),
        stars_refusal(stars.take(n), catalog) is Some,
    ensures
        stars_refusal(stars, catalog) == stars_refusal(stars.take(n), catalog),
    decreases stars.len(),
{
    if n == stars.len() {
        assert(stars.take(n) =~= stars);
    } else {
        assert(stars.drop_last().take(n) =~= stars.take(n));
        lemma_refusal_extends(stars.drop_last(), catalog, n);
    }
}

/// A star post for the transaction its token names: refused when the token
/// names none (`owner_gems` is `None`); otherwise checked against the gems
/// of that transaction (see `validate_star_post`).
pub fn post_stars_own(owner_gems: Option<i32>, username: &str, message: &str, stars: &Vec<StarChoice>,
    catalog: &Vec<StarKind>) -> (r: Result<(String, String), StarRefusal>)
    requires
        owner_gems matches Some(g) && stars_refusal(stars@, catalog@) is None && stars_price(stars@, catalog@) <= g
            ==> truncate_ok(sanitized(username@), USERNAME_MAX_BYTES as int) && truncate_ok(sanitized(message@),
            MESSAGE_MAX_BYTES as int),
    ensures
        owner_gems is None ==> r == Err::<(String, String), StarRefusal>(StarRefusal::InvalidToken),
        owner_gems matches Some(g) ==> match stars_refusal(stars@, catalog@) {
            Some(e) => r == Err::<(String, String), StarRefusal>(e),
            None => if stars_price(stars@, catalog@) > g {
                r matches Err(StarRefusal::TooManyStars(spent)) && spent == stars_price(stars@, catalog@)
            } else {
                r matches Ok((u, m)) && u@ == truncated(sanitized(username@), USERNAME_MAX_BYTES as int) && m@
                    == truncated(sanitized(message@), MESSAGE_MAX_BYTES as int)
            },
        },
{
    match owner_gems {
        None => Err(StarRefusal::InvalidToken),
        Some(g) => validate_star_post(username, message, stars, catalog, g),
    }
}

} // verus!
