//! Authorization of writes: a credential is accepted when, trimmed of
//! surrounding whitespace, it is the shared secret.

use crate::error::AuthorizationError;
use vstd::prelude::*;

verus! {

/// The characters that count as whitespace: those with the Unicode property
/// `White_Space`.
pub open spec fn is_whitespace(c: char) -> bool {
    let code = c as u32;
    ||| 0x09 <= code <= 0x0D
    ||| code == 0x20
    ||| code == 0x85
    ||| code == 0xA0
    ||| code == 0x1680
    ||| 0x2000 <= code <= 0x200A
    ||| code == 0x2028
    ||| code == 0x2029
    ||| code == 0x202F
    ||| code == 0x205F
    ||| code == 0x3000
}

/// `text` without its leading whitespace.
pub open spec fn trim_start(text: Seq<char>) -> Seq<char>
    decreases text.len(),
{
    if text.len() > 0 && is_whitespace(text.first()) {
        trim_start(text.drop_first())
    } else {
        text
    }
}

/// `text` without its trailing whitespace.
pub open spec fn trim_end(text: Seq<char>) -> Seq<char>
    decreases text.len(),
{
    if text.len() > 0 && is_whitespace(text.last()) {
        trim_end(text.drop_last())
    } else {
        text
    }
}

/// `text` without the whitespace at either end.
pub open spec fn trimmed(text: Seq<char>) -> Seq<char> {
    trim_end(trim_start(text))
}

/// A write is authorized when it carries a credential that, once trimmed, is
/// the shared secret.
pub open spec fn authorized(authorization: Option<Seq<char>>, key: Seq<char>) -> bool {
    authorization matches Some(credential) && trimmed(credential) == key
}

/// The answer to a write: accepted, or the reason why it is turned away.
pub open spec fn verdict_on(authorization: Option<Seq<char>>, key: Seq<char>) -> Result<
    (),
    AuthorizationError,
> {
    match authorization {
        None => Err(AuthorizationError::MissingCredential),
        Some(credential) => if trimmed(credential) == key {
            Ok(())
        } else {
            Err(AuthorizationError::WrongCredential)
        },
    }
}

/// Whether `c` is whitespace.
pub fn char_is_whitespace(c: char) -> (whitespace: bool)
    ensures
        whitespace == is_whitespace(c),
{
    let code: u32 = c as u32;
    (0x09 <= code && code <= 0x0D) || code == 0x20 || code == 0x85 || code == 0xA0 || code
        == 0x1680 || (0x2000 <= code && code <= 0x200A) || code == 0x2028 || code == 0x2029
        || code == 0x202F || code == 0x205F || code == 0x3000
}

/// The characters of `text`, in order.
fn chars_of(text: &str) -> (chars: Vec<char>)
    ensures
        chars@ == text@,
{
    let mut chars: Vec<char> = Vec::new();
    for c in it: text.chars()
        invariant
            it.seq() == text@,
            chars@ == it.seq().take(it.index() as int),
    {
        chars.push(c);
    }
    chars
}

/// What a request carries as its credential, as a mathematical value.
pub open spec fn credential_view(authorization: Option<&str>) -> Option<Seq<char>> {
    match authorization {
        Some(credential) => Some(credential@),
        None => None,
    }
}

/// `text` without the whitespace at either end.
pub fn trim(text: &str) -> (inner: &str)
    ensures
        inner@ == trimmed(text@),
{
    let chars = chars_of(text);
    let mut start: usize = 0;
    assert(chars@.skip(0) == chars@);
    while start < chars.len() && char_is_whitespace(chars[start])
        invariant
            start <= chars@.len(),
            trim_start(chars@) == trim_start(chars@.skip(start as int)),
        decreases chars@.len() - start,
    {
        assert(chars@.skip(start as int).drop_first() == chars@.skip(start + 1));
        start += 1;
    }
    let ghost rest = chars@.skip(start as int);
    assert(rest == chars@.subrange(start as int, chars@.len() as int));
    let mut end: usize = chars.len();
    while end > start && char_is_whitespace(chars[end - 1])
        invariant
            start <= end <= chars@.len(),
            trim_end(rest) == trim_end(chars@.subrange(start as int, end as int)),
        decreases end,
    {
        assert(chars@.subrange(start as int, end as int).drop_last() == chars@.subrange(
            start as int,
            end - 1,
        ));
        end -= 1;
    }
    text.substring_char(start, end)
}

/// Decides whether a write may proceed: it may when the request carries a
/// credential whose trimmed text is the shared secret `key`.
pub fn authorize(authorization: Option<&str>, key: &str) -> (verdict: Result<
    (),
    AuthorizationError,
>)
    ensures
        verdict == verdict_on(credential_view(authorization), key@),
        verdict is Ok <==> authorized(credential_view(authorization), key@),
{
    match authorization {
        None => Err(AuthorizationError::MissingCredential),
        Some(credential) => {
            if trim(credential).to_string() == key.to_string() {
                Ok(())
            } else {
                Err(AuthorizationError::WrongCredential)
            }
        },
    }
}

} // verus!
