//! The MIME-type check: whether a container's declared MIME types include
//! one recognized as audio or video.
//!
//! The prober computes this over the container's declared types for
//! diagnostic purposes; in the current pipeline it does not gate the
//! summary.

use vstd::prelude::*;

verus! {

/// True when `s` begins with `prefix`.
pub open spec fn starts_with(s: Seq<char>, prefix: Seq<char>) -> bool {
    s.len() >= prefix.len() && s.subrange(0, prefix.len() as int) == prefix
}

/// True when the MIME type is declared as audio or video content.
pub open spec fn is_av_mime(mime: Seq<char>) -> bool {
    starts_with(mime, "audio"@) || starts_with(mime, "video"@)
}

/// True when any declared MIME type is audio or video.
pub open spec fn any_av_mime(mimes: Seq<Seq<char>>) -> bool {
    exists|i: int| 0 <= i < mimes.len() && is_av_mime(mimes[i])
}

fn str_starts_with(s: &str, prefix: &str) -> (r: bool)
    ensures
        r == starts_with(s@, prefix@),
{
    let pn: usize = prefix.unicode_len();
    let sn: usize = s.unicode_len();
    if sn < pn {
        return false;
    }
    let mut i: usize = 0;
    while i < pn
        invariant
            i <= pn,
            pn as nat == prefix@.len(),
            s@.len() >= prefix@.len(),
            forall|j: int| 0 <= j < i ==> s@[j] == prefix@[j],
        decreases pn - i,
    {
        if s.get_char(i) != prefix.get_char(i) {
            proof {
                let head = s@.subrange(0, prefix@.len() as int);
                assert(head != prefix@) by {
                    if head == prefix@ {
                        assert(head[i as int] == prefix@[i as int]);
                    }
                }
            }
            return false;
        }
        i += 1;
    }
    proof {
        assert(s@.subrange(0, prefix@.len() as int) =~= prefix@);
    }
    true
}

/// Reports whether any of the declared MIME types is prefixed `audio` or
/// `video`.
pub fn has_av_mime(mime_types: &Vec<String>) -> (r: bool)
    ensures
        r == any_av_mime(mime_types.deep_view()),
{
    let mut i: usize = 0;
    while i < mime_types.len()
        invariant
            i <= mime_types@.len(),
            forall|j: int| 0 <= j < i ==> !is_av_mime(#[trigger] mime_types.deep_view()[j]),
        decreases mime_types@.len() - i,
    {
        let m: &String = &mime_types[i];
        if str_starts_with(m.as_str(), "audio") || str_starts_with(m.as_str(), "video") {
            proof {
                assert(mime_types.deep_view()[i as int] == m@);
                assert(is_av_mime(mime_types.deep_view()[i as int]));
            }
            return true;
        }
        i += 1;
    }
    proof {
        assert(!any_av_mime(mime_types.deep_view()));
    }
    false
}

} // verus!
