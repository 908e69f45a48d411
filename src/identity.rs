use vstd::prelude::*;

use crate::error::AccessError;
use crate::jwt::{decode_jwt, is_token_char, jwt_encoding, token_chars, verified_claims, ClaimsView};
use crate::users::User;

verus! {

/// The characters that `char::is_whitespace` accepts (Unicode White_Space).
pub open spec fn is_space(c: char) -> bool {
    ||| '\t' <= c <= '\r'
    ||| c == ' '
    ||| c == '\u{85}'
    ||| c == '\u{a0}'
    ||| c == '\u{1680}'
    ||| '\u{2000}' <= c <= '\u{200a}'
    ||| c == '\u{2028}'
    ||| c == '\u{2029}'
    ||| c == '\u{202f}'
    ||| c == '\u{205f}'
    ||| c == '\u{3000}'
}

/// `s` without its leading whitespace.
pub open spec fn trim_start(s: Seq<char>) -> Seq<char>
    decreases s.len(),
{
    if s.len() > 0 && is_space(s[0]) {
        trim_start(s.drop_first())
    } else {
        s
    }
}

/// `s` without its trailing whitespace.
pub open spec fn trim_end(s: Seq<char>) -> Seq<char>
    decreases s.len(),
{
    if s.len() > 0 && is_space(s.last()) {
        trim_end(s.drop_last())
    } else {
        s
    }
}

pub open spec fn trimmed(s: Seq<char>) -> Seq<char> {
    trim_end(trim_start(s))
}

pub open spec fn bearer_scheme() -> Seq<char> {
    "Bearer "@
}

/// The token that an `Authorization` header value carries: what follows the
/// case-sensitive `Bearer ` prefix, trimmed.
pub open spec fn token_of(value: Seq<char>) -> Option<Seq<char>> {
    let n = bearer_scheme().len();
    if value.len() >= n && value.subrange(0, n as int) == bearer_scheme() {
        Some(trimmed(value.subrange(n as int, value.len() as int)))
    } else {
        None
    }
}

pub open spec fn opt_str_view(s: Option<&str>) -> Option<Seq<char>> {
    match s {
        Some(s) => Some(s@),
        None => None,
    }
}

proof fn lemma_trim_start_skips(s: Seq<char>, i: int)
    requires
        0 <= i <= s.len(),
        forall|k: int| 0 <= k < i ==> is_space(#[trigger] s[k]),
    ensures
        trim_start(s) == trim_start(s.subrange(i, s.len() as int)),
    decreases i,
{
    if i > 0 {
        assert(s.drop_first() == s.subrange(1, s.len() as int));
        assert(s.drop_first().subrange(i - 1, s.drop_first().len() as int) == s.subrange(
            i,
            s.len() as int,
        ));
        lemma_trim_start_skips(s.drop_first(), i - 1);
    } else {
        assert(s.subrange(0, s.len() as int) == s);
    }
}

proof fn lemma_trim_end_skips(s: Seq<char>, j: int)
    requires
        0 <= j <= s.len(),
        forall|k: int| j <= k < s.len() ==> is_space(#[trigger] s[k]),
    ensures
        trim_end(s) == trim_end(s.subrange(0, j)),
    decreases s.len() - j,
{
    if j < s.len() {
        assert(s.drop_last() == s.subrange(0, s.len() - 1));
        assert(s.drop_last().subrange(0, j) == s.subrange(0, j));
        lemma_trim_end_skips(s.drop_last(), j);
    } else {
        assert(s.subrange(0, s.len() as int) == s);
    }
}

/// A string of token characters holds no whitespace to trim.
proof fn lemma_token_is_trimmed(t: Seq<char>)
    requires
        token_chars(t),
    ensures
        trimmed(t) == t,
{
    if t.len() > 0 {
        assert(is_token_char(t[0]));
        assert(is_token_char(t[t.len() - 1]));
    }
}

/// `s` without leading and trailing whitespace.
pub fn trim(s: &str) -> (r: &str)
    ensures
        r@ == trimmed(s@),
{
    let n = s.unicode_len();
    let mut i: usize = 0;
    while i < n && is_space_char(s.get_char(i))
        invariant
            n == s@.len(),
            i <= n,
            forall|k: int| 0 <= k < i ==> is_space(#[trigger] s@[k]),
        decreases n - i,
    {
        i = i + 1;
    }
    proof {
        lemma_trim_start_skips(s@, i as int);
    }
    let ghost rest = s@.subrange(i as int, n as int);
    let mut j: usize = n;
    while j > i && is_space_char(s.get_char(j - 1))
        invariant
            n == s@.len(),
            i <= j <= n,
            forall|k: int| j <= k < n ==> is_space(#[trigger] s@[k]),
        decreases j,
    {
        j = j - 1;
    }
    proof {
        if i < n {
            assert(!is_space(rest[0]));
            assert(trim_start(rest) == rest);
        } else {
            assert(rest.len() == 0);
        }
        assert forall|k: int| j - i <= k < rest.len() implies is_space(#[trigger] rest[k]) by {
            assert(rest[k] == s@[k + i]);
        }
        lemma_trim_end_skips(rest, j - i);
        assert(rest.subrange(0, j - i) == s@.subrange(i as int, j as int));
        let t = s@.subrange(i as int, j as int);
        if j > i {
            assert(t.last() == s@[j - 1]);
        }
    }
    s.substring_char(i, j)
}

/// Whether `c` is whitespace in the sense of `char::is_whitespace`.
pub fn is_space_char(c: char) -> (r: bool)
    ensures
        r == is_space(c),
{
    ('\t' <= c && c <= '\r') || c == ' ' || c == '\u{85}' || c == '\u{a0}' || c == '\u{1680}'
        || ('\u{2000}' <= c && c <= '\u{200a}') || c == '\u{2028}' || c == '\u{2029}' || c
        == '\u{202f}' || c == '\u{205f}' || c == '\u{3000}'
}

/// The bearer token of an `Authorization` header value, if it uses the
/// `Bearer ` scheme.
pub fn get_token(value: &str) -> (r: Option<&str>)
    ensures
        opt_str_view(r) == token_of(value@),
{
    proof {
        reveal_strlit("Bearer ");
    }
    let n = value.unicode_len();
    if n < 7 {
        return None;
    }
    let head = value.substring_char(0, 7);
    if !crate::roles::str_equal(head, "Bearer ") {
        return None;
    }
    Some(trim(value.substring_char(7, n)))
}

/// The outcome of the authentication stage: the subject id of a token that
/// verifies at `now`, or the reason for refusal.
pub open spec fn authentication(header: Option<Seq<char>>, secret: Seq<char>, now: int) -> Result<
    i32,
    AccessError,
> {
    match header {
        None => Err(AccessError::MissingCredential),
        Some(value) => match token_of(value) {
            None => Err(AccessError::MissingCredential),
            Some(token) => match verified_claims(token, secret, now) {
                None => Err(AccessError::InvalidCredential),
                Some(c) => Ok(c.sub),
            },
        },
    }
}

/// The authentication stage up to the account lookup: reads the bearer token
/// of the `Authorization` header value and verifies it at time `now`. A
/// header that carries a token signed from some claims under the same secret
/// (as every issued token is: base64url parts and dots) yields their subject
/// unless they have expired, and is refused as an invalid token once they
/// have.
pub fn auth_middleware(header: Option<&str>, secret: &String, now: i64) -> (r: Result<
    i32,
    AccessError,
>)
    ensures
        r == authentication(opt_str_view(header), secret@, now as int),
        forall|c: ClaimsView|
            opt_str_view(header) == Some(bearer_scheme() + #[trigger] jwt_encoding(c, secret@))
                && token_chars(jwt_encoding(c, secret@)) ==> r == if c.exp
                >= now {
                Ok::<i32, AccessError>(c.sub)
            } else {
                Err::<i32, AccessError>(AccessError::InvalidCredential)
            },
{
    proof {
        reveal_strlit("Bearer ");
    }
    let value = match header {
        Some(v) => v,
        None => return Err(AccessError::MissingCredential),
    };
    let ghost v = value@;
    assert forall|c: ClaimsView|
        v == bearer_scheme() + #[trigger] jwt_encoding(c, secret@) && token_chars(
            jwt_encoding(c, secret@),
        ) implies token_of(v) == Some(jwt_encoding(c, secret@)) by {
        let t = jwt_encoding(c, secret@);
        lemma_token_is_trimmed(t);
        assert(v.subrange(0, 7) == bearer_scheme());
        assert(v.subrange(7, v.len() as int) == t);
    }
    let token = match get_token(value) {
        Some(t) => t,
        None => return Err(AccessError::MissingCredential),
    };
    match decode_jwt(token.to_owned(), secret, now) {
        Some(claims) => Ok(claims.sub),
        None => Err(AccessError::InvalidCredential),
    }
}

/// The end of the authentication stage: the account found for the subject
/// becomes the principal. No account, or a failed lookup, is refused as an
/// invalid token.
pub fn resolve_principal(found: Option<User>) -> (r: Result<User, AccessError>)
    ensures
        match found {
            Some(u) => r == Ok::<User, AccessError>(u),
            None => r == Err::<User, AccessError>(AccessError::InvalidCredential),
        },
{
    match found {
        Some(u) => Ok(u),
        None => Err(AccessError::InvalidCredential),
    }
}

} // verus!
