//! Download links: the public address under which the gateway serves an
//! object.

use crate::text::{ends_with, ends_with_char};
use vstd::prelude::*;
use vstd::string::*;

verus! {

/// `url::ParseError`: why a text is no URL. Nothing is read from it.
#[verifier::external_type_specification]
#[verifier::external_body]
pub struct ExUrlParseError(url::ParseError);

/// The serialization of the URL that `url::Url::parse` reads from `base` and
/// `url::Url::join` then resolves `reference` against; `None` where either
/// of the two refuses its input.
pub uninterp spec fn resolved_url(base: Seq<char>, reference: Seq<char>) -> Option<Seq<char>>;

/// Parses `base` with `url::Url::parse`, resolves `reference` against it
/// with `url::Url::join` and hands back the serialization of the outcome.
/// Both calls depend on their arguments alone; the contract gives their
/// joint result the name `resolved_url` and claims nothing else of it.
#[verifier::external_body]
fn resolve_url(base: &str, reference: &str) -> (r: Result<String, url::ParseError>)
    ensures
        match r {
            Ok(link) => resolved_url(base@, reference@) == Some(link@),
            Err(_) => resolved_url(base@, reference@) is None,
        },
{
    let joined = url::Url::parse(base)?.join(reference)?;
    Ok(joined.into())
}

/// `base`, with a `/` added where it does not end in one, so that a
/// reference resolved against it lands below its last segment.
pub open spec fn with_trailing_slash(base: Seq<char>) -> Seq<char> {
    if ends_with_char(base, '/') {
        base
    } else {
        base.push('/')
    }
}

/// The reference under which the object `key` is served.
pub open spec fn download_reference(key: Seq<char>) -> Seq<char> {
    "api/download/"@ + key
}

/// The download link of the object `key` for a gateway that is reachable
/// at `base`; `None` where `base` yields no link.
pub open spec fn download_link(base: Seq<char>, key: Seq<char>) -> Option<Seq<char>> {
    resolved_url(with_trailing_slash(base), download_reference(key))
}

/// Computes the download link of the object `key`.
pub fn download_url(base: &str, key: &str) -> (r: Option<String>)
    ensures
        r.deep_view() == download_link(base@, key@),
{
    let mut root = String::from_str(base);
    if !ends_with(base, '/') {
        root.append("/");
        proof {
            reveal_strlit("/");
        }
        assert(root@ =~= base@.push('/'));
    }
    let mut reference = String::from_str("api/download/");
    reference.append(key);
    match resolve_url(root.as_str(), reference.as_str()) {
        Ok(link) => Some(link),
        Err(_) => None,
    }
}

} // verus!
