//! Building URLs by appending path segments.

use vstd::prelude::*;
use vstd::string::StrSliceExecFns;
use crate::client::cap_u64;

verus! {

/// The most characters a join is given to work with: the base and every
/// segment together.  The url crate keeps a whole URL below 2^32 bytes and
/// commits the appended path's length unchecked, so the inputs are held far
/// enough inside that limit that no expansion the parser or the
/// percent-encoding applies (at most a dozen bytes for one character) can
/// reach it.
pub const MAX_JOIN_CHARS: u64 = 0x100_0000;

/// The characters a join must carry: the base, and each segment with its
/// separating slash.
pub open spec fn join_measure(base: Seq<char>, segments: Seq<Seq<char>>) -> nat
    decreases segments.len(),
{
    if segments.len() == 0 {
        base.len()
    } else {
        join_measure(base, segments.drop_last()) + segments.last().len() + 1
    }
}

/// The result of parsing `base` as an absolute URL and appending `segments`
/// to its path, rendered back as text; nothing when `base` does not parse or
/// cannot carry a path.  The outcome is a function of the texts alone.
pub uninterp spec fn url_joined(base: Seq<char>, segments: Seq<Seq<char>>) -> Option<Seq<char>>;

/// Why segments could not be appended to a URL.
#[derive(Clone, Copy, Debug, PartialEq, Eq, Structural)]
pub enum UrlError {
    /// The base did not parse as an absolute URL, or it cannot carry a path
    /// (a `data:` or `mailto:` URL, for instance).
    NotABase,
    /// The base and the segments together exceed what a URL may carry.
    TooLong,
}

/// Relies on `url::Url::parse`, `url::Url::path_segments_mut` and
/// `url::PathSegmentsMut::extend`: parses the base URL, appends each segment
/// to its path, and renders the result; fails exactly when the base does not
/// parse as an absolute URL or cannot be a base.  The inputs are bounded
/// because the crate aborts on a URL that grows past 2^32 bytes; under the
/// bound the joined text cannot come near that.
#[verifier::external_body]
fn join_segments(base_url: &str, segments: &Vec<String>) -> (joined: Option<String>)
    requires
        join_measure(base_url@, segments@.map_values(|seg: String| seg@)) <= MAX_JOIN_CHARS,
    ensures
        match joined {
            Some(s) => url_joined(base_url@, segments@.map_values(|seg: String| seg@)) == Some(
                s@,
            ),
            None => url_joined(base_url@, segments@.map_values(|seg: String| seg@)) is None,
        },
{
    let mut parsed = match url::Url::parse(base_url) {
        Ok(u) => u,
        Err(_) => return None,
    };
    match parsed.path_segments_mut() {
        Ok(mut path) => {
            path.extend(segments.iter());
        },
        Err(()) => return None,
    }
    Some(String::from(parsed))
}

/// Adds segments to the path of a URL.  Succeeds exactly when the inputs
/// fit in a URL and the base parses as an absolute URL that can carry a
/// path.
pub fn add_segments(base_url: &str, segments: &Vec<String>) -> (joined: Result<String, UrlError>)
    ensures
        match joined {
            Ok(s) => {
                &&& join_measure(base_url@, segments@.map_values(|seg: String| seg@))
                    <= MAX_JOIN_CHARS
                &&& url_joined(base_url@, segments@.map_values(|seg: String| seg@)) == Some(s@)
            },
            Err(UrlError::NotABase) => {
                &&& join_measure(base_url@, segments@.map_values(|seg: String| seg@))
                    <= MAX_JOIN_CHARS
                &&& url_joined(base_url@, segments@.map_values(|seg: String| seg@)) is None
            },
            Err(UrlError::TooLong) => join_measure(
                base_url@,
                segments@.map_values(|seg: String| seg@),
            ) > MAX_JOIN_CHARS,
        },
{
    let ghost views = segments@.map_values(|seg: String| seg@);
    let mut total: u64 = base_url.unicode_len() as u64;
    let mut i: usize = 0;
    proof {
        assert(views.take(0) =~= Seq::<Seq<char>>::empty());
    }
    while i < segments.len()
        invariant
            i <= segments@.len(),
            views == segments@.map_values(|seg: String| seg@),
            total == cap_u64(join_measure(base_url@, views.take(i as int))),
        decreases segments@.len() - i,
    {
        let seg_len = segments[i].as_str().unicode_len();
        proof {
            assert(views.take(i + 1).drop_last() =~= views.take(i as int));
            assert(views.take(i + 1).last() == views[i as int]);
            crate::client::lemma_cap_add(
                join_measure(base_url@, views.take(i as int)),
                seg_len as u64,
            );
            crate::client::lemma_cap_add(
                join_measure(base_url@, views.take(i as int)) + seg_len as nat,
                1,
            );
        }
        total = total.saturating_add(seg_len as u64).saturating_add(1);
        i += 1;
    }
    proof {
        assert(views.take(segments@.len() as int) =~= views);
    }
    if total > MAX_JOIN_CHARS {
        return Err(UrlError::TooLong);
    }
    match join_segments(base_url, segments) {
        Some(s) => Ok(s),
        None => Err(UrlError::NotABase),
    }
}

} // verus!
