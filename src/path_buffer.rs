use vstd::prelude::*;
use vstd::slice::slice_to_vec;
use vstd::string::StringSliceAdditionalSpecFns;
use vstd::utf8::{decode_utf8, encode_utf8_decode_utf8, encode_utf8_valid_utf8, valid_utf8};

use crate::error::Error;

verus! {

/// The path separator byte, `/`.
pub const SEPARATOR: u8 = 47;

/// The text of a path given by its bytes, when they are well-formed UTF-8.
pub open spec fn path_text(bytes: Seq<u8>) -> Option<Seq<char>> {
    if valid_utf8(bytes) {
        Some(decode_utf8(bytes))
    } else {
        None
    }
}

/// The path `rest` resolved against `base`, as `PathBuf::join` does on Unix:
/// an absolute `rest` replaces `base`; otherwise the two are joined by one
/// separator, which is not doubled when `base` already ends with one.
pub open spec fn joined(base: Seq<u8>, rest: Seq<u8>) -> Seq<u8> {
    if rest.len() > 0 && rest[0] == SEPARATOR {
        rest
    } else if base.len() == 0 || base.last() == SEPARATOR {
        base + rest
    } else {
        base.push(SEPARATOR) + rest
    }
}

/// Relies on `std::str::from_utf8`: it succeeds exactly on well-formed UTF-8,
/// and then returns the text whose encoding those bytes are.
#[verifier::external_body]
pub(crate) fn utf8_str(bytes: &[u8]) -> (r: Option<&str>)
    ensures
        r is Some <==> valid_utf8(bytes@),
        r is Some ==> r->0.spec_bytes() == bytes@,
{
    std::str::from_utf8(bytes).ok()
}

/// A filesystem path, held as the bytes the operating system uses for it.
///
/// A path need not be UTF-8; it becomes text only where a command line needs
/// it, and fails there with `InvalidPath` when it is not.
#[derive(Debug)]
pub struct PathBuffer {
    pub bytes: Vec<u8>,
}

impl View for PathBuffer {
    type V = Seq<u8>;

    open spec fn view(&self) -> Seq<u8> {
        self.bytes@
    }
}

fn append_bytes(out: &mut Vec<u8>, more: &[u8])
    ensures
        final(out)@ == old(out)@ + more@,
{
    let mut i: usize = 0;
    while i < more.len()
        invariant
            i <= more@.len(),
            out@ == old(out)@ + more@.subrange(0, i as int),
        decreases more@.len() - i,
    {
        out.push(more[i]);
        i = i + 1;
        assert(more@.subrange(0, i as int) =~= more@.subrange(0, i - 1).push(more@[i - 1]));
    }
    assert(more@.subrange(0, more@.len() as int) =~= more@);
}

impl PathBuffer {
    /// The path named by the text `s`.
    pub fn from_text(s: &str) -> (r: PathBuffer)
        ensures
            r@ == s.spec_bytes(),
            path_text(r@) == Some(s@),
    {
        proof {
            encode_utf8_decode_utf8(s@);
            encode_utf8_valid_utf8(s@);
        }
        PathBuffer { bytes: slice_to_vec(s.as_bytes()) }
    }

    /// A path with the same bytes.
    pub fn duplicate(&self) -> (r: PathBuffer)
        ensures
            r@ == self@,
    {
        PathBuffer { bytes: slice_to_vec(self.bytes.as_slice()) }
    }

    /// The path as text, when it is well-formed UTF-8.
    pub fn to_str(&self) -> (r: Option<&str>)
        ensures
            match r {
                Some(s) => path_text(self@) == Some(s@),
                None => path_text(self@) is None,
            },
    {
        let r = utf8_str(self.bytes.as_slice());
        proof {
            if r is Some {
                encode_utf8_decode_utf8(r->0@);
            }
        }
        r
    }

    /// The path as owned text, or `InvalidPath` when it is not UTF-8.
    pub fn to_string(&self) -> (r: Result<String, Error>)
        ensures
            match r {
                Ok(s) => path_text(self@) == Some(s@),
                Err(e) => path_text(self@) is None && e == Error::InvalidPath,
            },
    {
        match self.to_str() {
            Some(s) => Ok(s.to_owned()),
            None => Err(Error::InvalidPath),
        }
    }

    /// `segment` resolved against this path (see `joined`).
    pub fn join(&self, segment: &str) -> (r: PathBuffer)
        ensures
            r@ == joined(self@, segment.spec_bytes()),
    {
        let rest = segment.as_bytes();
        if rest.len() > 0 && rest[0] == SEPARATOR {
            return PathBuffer { bytes: slice_to_vec(rest) };
        }
        let mut bytes = slice_to_vec(self.bytes.as_slice());
        let n = bytes.len();
        if n > 0 && bytes[n - 1] != SEPARATOR {
            bytes.push(SEPARATOR);
        }
        append_bytes(&mut bytes, rest);
        PathBuffer { bytes }
    }

    /// The path named by the text, when there is one.
    pub fn maybe_from(value: Option<&str>) -> (r: Option<PathBuffer>)
        ensures
            match value {
                Some(s) => r is Some && r->0@ == s.spec_bytes(),
                None => r is None,
            },
    {
        match value {
            Some(s) => Some(PathBuffer::from_text(s)),
            None => None,
        }
    }
}

} // verus!
