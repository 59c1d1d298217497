//! The device selector: resolving a requested output-device name against the
//! names the audio backend enumerated, and preparing the display list with
//! the host default marked.  Enumeration itself — asking the backend for its
//! devices and their names — happens outside the library, which receives the
//! names as plain strings.

use vstd::prelude::*;
use vstd::string::StringExecFns;

use crate::PlaybackError;

verus! {

/// The UTF-8 bytes of the lowercase form of a character sequence, as
/// `str::to_lowercase` computes it.
pub uninterp spec fn lower_bytes_of(s: Seq<char>) -> Seq<u8>;

/// Relies on `str::to_lowercase`: the lowercase form of a string depends on
/// its characters alone; the result is carried as its UTF-8 bytes.
#[verifier::external_body]
fn lowercase_bytes(s: &str) -> (r: Vec<u8>)
    ensures
        r@ == lower_bytes_of(s@),
{
    s.to_lowercase().into_bytes()
}

/// `needle` occurs contiguously somewhere inside `hay`.
pub open spec fn contains_sub(hay: Seq<u8>, needle: Seq<u8>) -> bool {
    exists|i: int|
        0 <= i && i + needle.len() <= hay.len() && #[trigger] hay.subrange(i, i + needle.len())
            == needle
}

/// A device name matches a request when the lowercased request occurs inside
/// the lowercased name.
pub open spec fn name_matches(name: Seq<char>, query: Seq<char>) -> bool {
    contains_sub(lower_bytes_of(name), lower_bytes_of(query))
}

/// Does `needle` stand at position `i` of `hay`?
fn match_at(hay: &Vec<u8>, needle: &Vec<u8>, i: usize) -> (r: bool)
    requires
        i + needle@.len() <= hay@.len(),
    ensures
        r == (hay@.subrange(i as int, i + needle@.len()) == needle@),
{
    let hay_len = hay.len();
    let mut j: usize = 0;
    while j < needle.len()
        invariant
            hay_len == hay@.len(),
            i + needle@.len() <= hay@.len(),
            j <= needle@.len(),
            forall|k: int| 0 <= k < j ==> hay@[i + k] == needle@[k],
        decreases needle@.len() - j,
    {
        if hay[i + j] != needle[j] {
            proof {
                assert(hay@.subrange(i as int, i + needle@.len())[j as int] == hay@[i + j]);
            }
            return false;
        }
        j = j + 1;
    }
    proof {
        assert(hay@.subrange(i as int, i + needle@.len()) =~= needle@);
    }
    true
}

/// Does `needle` occur anywhere inside `hay`?
fn contains_bytes(hay: &Vec<u8>, needle: &Vec<u8>) -> (r: bool)
    ensures
        r == contains_sub(hay@, needle@),
{
    if needle.len() > hay.len() {
        return false;
    }
    let last = hay.len() - needle.len();
    let mut i: usize = 0;
    loop
        invariant
            needle@.len() <= hay@.len(),
            last == hay@.len() - needle@.len(),
            i <= last,
            forall|k: int|
                0 <= k < i ==> #[trigger] hay@.subrange(k, k + needle@.len()) != needle@,
        decreases last - i,
    {
        if match_at(hay, needle, i) {
            return true;
        }
        if i == last {
            return false;
        }
        i = i + 1;
    }
}

/// The position of the first enumerated name that matches the request,
/// compared case-insensitively as substrings.
pub fn find_device(names: &Vec<String>, query: &str) -> (r: Option<usize>)
    ensures
        match r {
            Some(i) => i < names@.len() && name_matches(names@[i as int]@, query@) && (forall|
                j: int,
            |
                0 <= j < i ==> !name_matches(names@[j]@, query@)),
            None => forall|j: int| 0 <= j < names@.len() ==> !name_matches(names@[j]@, query@),
        },
{
    let q = lowercase_bytes(query);
    let mut i: usize = 0;
    while i < names.len()
        invariant
            q@ == lower_bytes_of(query@),
            i <= names@.len(),
            forall|j: int| 0 <= j < i ==> !name_matches(names@[j]@, query@),
        decreases names@.len() - i,
    {
        let lowered = lowercase_bytes(names[i].as_str());
        if contains_bytes(&lowered, &q) {
            return Some(i);
        }
        i = i + 1;
    }
    None
}

/// Where one playback should send its audio.
#[derive(Clone, Copy, Debug, PartialEq, Eq, Structural)]
pub enum DeviceChoice {
    /// The host's default output device.
    UseDefault,
    /// The device at this position of the enumerated output list.
    Match(usize),
}

/// Resolve a requested device name: an empty request means the host default;
/// otherwise the first enumerated name containing the request
/// case-insensitively wins, and no match at all is the not-found error.
pub fn select_device(names: &Vec<String>, query: &str) -> (r: Result<
    DeviceChoice,
    PlaybackError,
>)
    ensures
        query@.len() == 0 ==> r == Ok::<DeviceChoice, PlaybackError>(DeviceChoice::UseDefault),
        match r {
            Ok(DeviceChoice::UseDefault) => query@.len() == 0,
            Ok(DeviceChoice::Match(i)) => query@.len() > 0 && i < names@.len() && name_matches(
                names@[i as int]@,
                query@,
            ) && (forall|j: int| 0 <= j < i ==> !name_matches(names@[j]@, query@)),
            Err(e) => e == PlaybackError::DeviceNotFound && query@.len() > 0 && (forall|j: int|
                0 <= j < names@.len() ==> !name_matches(names@[j]@, query@)),
        },
{
    if query.is_empty() {
        Ok(DeviceChoice::UseDefault)
    } else {
        match find_device(names, query) {
            Some(i) => Ok(DeviceChoice::Match(i)),
            None => Err(PlaybackError::DeviceNotFound),
        }
    }
}

/// What position `i` of the device list displays as: its own name, with a
/// trailing marker when it is the first entry equal to the host default's
/// name — so exactly one entry is marked whenever the default is listed.
pub open spec fn spec_display_name(names: Seq<String>, default: Seq<char>, i: int) -> Seq<char> {
    if names[i]@ == default && (forall|j: int| 0 <= j < i ==> names[j]@ != default) {
        names[i]@ + " (default)"@
    } else {
        names[i]@
    }
}

/// The display list of output devices: each enumerated name in order, the
/// first one equal to the host default's name carrying a trailing marker.
pub fn annotate_devices(names: &Vec<String>, default_name: &String) -> (r: Vec<String>)
    ensures
        r@.len() == names@.len(),
        forall|i: int|
            0 <= i < names@.len() ==> r@[i]@ == spec_display_name(names@, default_name@, i),
{
    let mut out: Vec<String> = Vec::new();
    let mut marked = false;
    let mut i: usize = 0;
    while i < names.len()
        invariant
            i <= names@.len(),
            out@.len() == i,
            marked <==> (exists|j: int| 0 <= j < i && #[trigger] names@[j]@ == default_name@),
            forall|k: int|
                0 <= k < i ==> out@[k]@ == spec_display_name(names@, default_name@, k),
        decreases names@.len() - i,
    {
        let name = &names[i];
        if !marked && name.eq(default_name) {
            marked = true;
            let mut annotated = name.clone();
            annotated.append(" (default)");
            out.push(annotated);
        } else {
            out.push(name.clone());
        }
        i = i + 1;
    }
    out
}

} // verus!
