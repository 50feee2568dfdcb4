//! Image format detection: each decoder plugin scores a file by its extension and header
//! bytes, and the registry orders the plugins to try.

pub mod formats;
pub mod registry;

use crate::text::{eq_ignore_ascii_case, utf8};
use vstd::prelude::*;

verus! {

/// How confidently a decoder recognises a file.
#[derive(Debug, Clone, Copy, PartialEq, Eq, Structural)]
pub enum DecodeMatch {
    /// Neither the extension nor the header is recognised.
    NoMatch,
    /// Only the file extension is recognised.
    ExtensionOnly,
    /// The header carries the format's magic bytes.
    MagicBytes,
}

impl DecodeMatch {
    /// Confidence order: `NoMatch < ExtensionOnly < MagicBytes`.
    pub open spec fn spec_rank(self) -> nat {
        match self {
            DecodeMatch::NoMatch => 0,
            DecodeMatch::ExtensionOnly => 1,
            DecodeMatch::MagicBytes => 2,
        }
    }

    /// Confidence order: `NoMatch < ExtensionOnly < MagicBytes`.
    pub fn rank(&self) -> (r: u8)
        ensures
            r as nat == self.spec_rank(),
    {
        match self {
            DecodeMatch::NoMatch => 0,
            DecodeMatch::ExtensionOnly => 1,
            DecodeMatch::MagicBytes => 2,
        }
    }
}

/// The score for a file whose header shows the magic bytes (`magic`) and whose extension is
/// one of the format's (`extension`).
pub open spec fn score(magic: bool, extension: bool) -> DecodeMatch {
    if magic {
        DecodeMatch::MagicBytes
    } else if extension {
        DecodeMatch::ExtensionOnly
    } else {
        DecodeMatch::NoMatch
    }
}

/// `h` starts with `p`.
pub open spec fn starts_with(h: Seq<u8>, p: Seq<u8>) -> bool {
    h.len() >= p.len() && h.take(p.len() as int) == p
}

/// The file extension (as `Path::extension` gives it, when it is valid UTF-8) equals `name`
/// up to ASCII case.
pub open spec fn extension_is(extension: Option<&str>, name: Seq<char>) -> bool {
    match extension {
        Some(e) => eq_ignore_ascii_case(utf8(e@), utf8(name)),
        None => false,
    }
}

/// Whether `h` starts with `p`.
pub fn has_prefix(h: &[u8], p: &[u8]) -> (r: bool)
    ensures
        r == starts_with(h@, p@),
{
    if h.len() < p.len() {
        return false;
    }
    let mut i: usize = 0;
    while i < p.len()
        invariant
            i <= p@.len() <= h@.len(),
            forall|j: int| 0 <= j < i ==> h@[j] == p@[j],
        decreases p.len() - i,
    {
        if h[i] != p[i] {
            assert(h@.take(p@.len() as int)[i as int] != p@[i as int]);
            return false;
        }
        i = i + 1;
    }
    assert(h@.take(p@.len() as int) =~= p@);
    true
}

} // verus!
