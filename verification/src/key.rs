//! Locating the cipher key in a module. The key stands there as a fixed
//! text followed by eighteen decimal digits; a zero byte ends it and is no
//! part of it. A module must hold exactly one occurrence.

use vstd::prelude::*;
use crate::cipher::KEY_LEN;
use crate::error::UnpackError;

verus! {

/// The key as it stands in a module, as a regular expression over bytes:
/// the group `key` takes the fixed text and the digits, the zero byte
/// follows it.
pub const KEY_PATTERN: &'static str = r"(?P<key>@F_Gs<>_\+\*\*-%322asAS\*]!%[0-9]{18})\x00";

/// The name of the group of `KEY_PATTERN` that takes the key.
pub const KEY_GROUP: &'static str = "key";

/// `regex::Error`, the engine's reason for not accepting a pattern. It is
/// carried, never looked into.
#[verifier::external_type_specification]
#[verifier::external_body]
pub struct ExRegexError(regex::Error);

/// What the regular expression engine finds of `pattern` in `haystack`:
/// `None` where it does not accept the pattern, else, for each of the
/// successive non-overlapping matches, from the left, the byte offsets at
/// which the group named `group` begins and ends, `None` where the group
/// took no part in the match or the pattern has no group of that name.
pub uninterp spec fn pattern_captures(
    pattern: Seq<char>,
    group: Seq<char>,
    haystack: Seq<u8>,
) -> Option<Seq<Option<(usize, usize)>>>;

/// Compiles `pattern` with `regex::bytes::Regex::new` and walks
/// `Regex::captures_iter` over `haystack`, keeping of each match the offsets
/// (`Match::start`, `Match::end`) of what `Captures::name` gives for
/// `group`. Trusted: that the outcome is the one that `pattern_captures`
/// names, which is to say that it depends on the three arguments alone.
#[verifier::external_body]
fn capture_spans(pattern: &str, group: &str, haystack: &[u8]) -> (r: Result<
    Vec<Option<(usize, usize)>>,
    regex::Error,
>)
    ensures
        match r {
            Ok(spans) => pattern_captures(pattern@, group@, haystack@) == Some(spans@),
            Err(_) => pattern_captures(pattern@, group@, haystack@) is None,
        },
{
    let re = regex::bytes::Regex::new(pattern)?;
    Ok(re.captures_iter(haystack).map(|c| c.name(group).map(|m| (m.start(), m.end()))).collect())
}

/// The key that one occurrence yields: the bytes of the module between the
/// two offsets, where these lie in the module and are a key's length apart.
pub open spec fn span_key(module: Seq<u8>, span: Option<(usize, usize)>) -> Result<
    Seq<u8>,
    UnpackError,
> {
    match span {
        Some((start, end)) => if start <= end <= module.len() && end - start == KEY_LEN {
            Ok(module.subrange(start as int, end as int))
        } else {
            Err(UnpackError::MalformedKey)
        },
        None => Err(UnpackError::MalformedKey),
    }
}

/// The key of a module in which the occurrences of the key pattern lie at
/// `spans`: there is none without an occurrence and none with more than
/// one, whichever comes first; the only occurrence yields it.
pub open spec fn selected_key(module: Seq<u8>, spans: Seq<Option<(usize, usize)>>) -> Result<
    Seq<u8>,
    UnpackError,
> {
    if spans.len() == 0 {
        Err(UnpackError::KeyNotFound)
    } else if spans.len() > 1 {
        Err(UnpackError::AmbiguousKey)
    } else {
        span_key(module, spans[0])
    }
}

/// The key of a module, given what the engine found of the key pattern.
pub open spec fn located_key(
    module: Seq<u8>,
    captures: Option<Seq<Option<(usize, usize)>>>,
) -> Result<Seq<u8>, UnpackError> {
    match captures {
        Some(spans) => selected_key(module, spans),
        None => Err(UnpackError::PatternRejected),
    }
}

/// A key, or the failure to find one, with the key taken by its bytes.
pub open spec fn key_bytes(r: Result<[u8; 42], UnpackError>) -> Result<Seq<u8>, UnpackError> {
    match r {
        Ok(key) => Ok(key@),
        Err(e) => Err(e),
    }
}

/// Takes the key out of `module`, given the places `spans` at which the key
/// pattern occurs in it.
pub fn select_key(module: &[u8], spans: &[Option<(usize, usize)>]) -> (r: Result<
    [u8; 42],
    UnpackError,
>)
    ensures
        key_bytes(r) == selected_key(module@, spans@),
{
    if spans.len() == 0 {
        return Err(UnpackError::KeyNotFound);
    }
    if spans.len() > 1 {
        return Err(UnpackError::AmbiguousKey);
    }
    match spans[0] {
        Some((start, end)) => {
            if start <= end && end <= module.len() && end - start == KEY_LEN {
                let mut key = [0u8; 42];
                let mut i: usize = 0;
                while i < KEY_LEN
                    invariant
                        i <= KEY_LEN,
                        start + KEY_LEN == end,
                        end <= module.len(),
                        forall|j: int| 0 <= j < i ==> key@[j] == module@[start + j],
                    decreases KEY_LEN - i,
                {
                    key[i] = module[start + i];
                    i += 1;
                }
                assert(key@ =~= module@.subrange(start as int, end as int));
                Ok(key)
            } else {
                Err(UnpackError::MalformedKey)
            }
        },
        None => Err(UnpackError::MalformedKey),
    }
}

/// Searches `module` for `pattern` and takes the key from the group named
/// `group` of the only occurrence.
pub fn search_pattern(pattern: &str, group: &str, module: &[u8]) -> (r: Result<
    [u8; 42],
    UnpackError,
>)
    ensures
        key_bytes(r) == located_key(module@, pattern_captures(pattern@, group@, module@)),
{
    match capture_spans(pattern, group, module) {
        Ok(spans) => select_key(module, spans.as_slice()),
        Err(_) => Err(UnpackError::PatternRejected),
    }
}

/// Finds the key in `module`: searches it for the key pattern and takes the
/// key from the only occurrence.
pub fn search_key(module: &[u8]) -> (r: Result<[u8; 42], UnpackError>)
    ensures
        key_bytes(r) == located_key(
            module@,
            pattern_captures(KEY_PATTERN@, KEY_GROUP@, module@),
        ),
{
    search_pattern(KEY_PATTERN, KEY_GROUP, module)
}

} // verus!
