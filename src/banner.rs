//! The protocol-version banner exchanged before binary framing begins:
//! `SSH-protoversion-softwareversion [SP comments] CR LF`.
use vstd::prelude::*;

use crate::error::HandshakeError;

verus! {

pub const CR: u8 = 0x0d;

pub const LF: u8 = 0x0a;

pub const DASH: u8 = 0x2d;

pub const SPACE: u8 = 0x20;

/// The longest banner read from a peer, line end included.
pub const MAX_BANNER_LEN: usize = 255;

/// The bytes a supported banner starts with: `SSH-2.0`.
pub open spec fn supported_prefix() -> Seq<u8> {
    seq![0x53u8, 0x53u8, 0x48u8, 0x2du8, 0x32u8, 0x2eu8, 0x30u8]
}

/// The line without the carriage returns and line feeds at its end.
pub open spec fn strip_line_end(line: Seq<u8>) -> Seq<u8>
    decreases line.len(),
{
    if line.len() > 0 && (line.last() == CR || line.last() == LF) {
        strip_line_end(line.drop_last())
    } else {
        line
    }
}

/// The first index at or after `i` that holds `b`, or the length of `s`.
pub open spec fn find_from(s: Seq<u8>, i: int, b: u8) -> int
    decreases s.len() - i,
{
    if i >= s.len() {
        s.len() as int
    } else if s[i] == b {
        i
    } else {
        find_from(s, i + 1, b)
    }
}

/// What a banner line stands for: the line without its end, the protocol
/// version (between `SSH-` and the next dash), the software version (after
/// that dash, up to a space) and the comments (after that space).
pub struct BannerView {
    pub text: Seq<u8>,
    pub version: Seq<u8>,
    pub implementation: Seq<u8>,
    pub comments: Seq<u8>,
}

/// The parts of a line that starts with `SSH-2.0` once its line end is gone.
pub open spec fn banner_parts(text: Seq<u8>) -> BannerView {
    let dash = find_from(text, 4, DASH);
    let soft_start = if dash < text.len() { dash + 1 } else { dash };
    let space = find_from(text, soft_start, SPACE);
    BannerView {
        text,
        version: text.subrange(4, dash),
        implementation: text.subrange(soft_start, space),
        comments: if space < text.len() { text.subrange(space + 1, text.len() as int) } else { Seq::empty() },
    }
}

/// What parsing the received line gives: its parts, or `None` when it does
/// not start with `SSH-2.0`.
pub open spec fn banner_of(line: Seq<u8>) -> Option<BannerView> {
    let text = strip_line_end(line);
    if text.len() >= 7 && text.take(7) == supported_prefix() {
        Some(banner_parts(text))
    } else {
        None
    }
}

/// A peer's protocol-version banner.
#[derive(Debug, Clone, PartialEq, Eq)]
pub struct Banner {
    pub text: Vec<u8>,
    pub version: Vec<u8>,
    pub implementation: Vec<u8>,
    pub comments: Vec<u8>,
}

impl View for Banner {
    type V = BannerView;

    open spec fn view(&self) -> BannerView {
        BannerView {
            text: self.text@,
            version: self.version@,
            implementation: self.implementation@,
            comments: self.comments@,
        }
    }
}

/// The first index at or after `from` that holds `b`, or the length of `s`.
fn find_byte(s: &[u8], from: usize, b: u8) -> (r: usize)
    requires
        from <= s@.len(),
    ensures
        r == find_from(s@, from as int, b),
        from <= r <= s@.len(),
{
    let mut i = from;
    while i < s.len()
        invariant
            from <= i <= s@.len(),
            find_from(s@, i as int, b) == find_from(s@, from as int, b),
        decreases s@.len() - i,
    {
        if s[i] == b {
            return i;
        }
        i = i + 1;
    }
    i
}

/// Copies `s[from..to]` into a vector.
fn copy_range(s: &[u8], from: usize, to: usize) -> (r: Vec<u8>)
    requires
        from <= to <= s@.len(),
    ensures
        r@ == s@.subrange(from as int, to as int),
{
    vstd::slice::slice_to_vec(vstd::slice::slice_subrange(s, from, to))
}

impl Banner {
    /// Parses a received banner line. The line end is dropped; a line that
    /// does not start with `SSH-2.0` is `UnsupportedVersion`, carrying the line.
    pub fn parse(line: &[u8]) -> (r: Result<Banner, HandshakeError>)
        ensures
            match banner_of(line@) {
                Some(v) => r matches Ok(b) && b@ == v,
                None => r matches Err(HandshakeError::UnsupportedVersion(t)) && t@
                    == strip_line_end(line@),
            },
    {
        let mut end = line.len();
        assert(line@.take(end as int) =~= line@);
        while end > 0 && (line[end - 1] == CR || line[end - 1] == LF)
            invariant
                end <= line@.len(),
                strip_line_end(line@) == strip_line_end(line@.take(end as int)),
            decreases end,
        {
            assert(line@.take(end as int).drop_last() =~= line@.take(end - 1));
            end = end - 1;
        }
        let text = vstd::slice::slice_subrange(line, 0, end);
        assert(text@ =~= line@.take(end as int));
        assert(strip_line_end(text@) == text@);
        let supported = text.len() >= 7 && text[0] == 0x53u8 && text[1] == 0x53u8 && text[2]
            == 0x48u8 && text[3] == 0x2du8 && text[4] == 0x32u8 && text[5] == 0x2eu8 && text[6]
            == 0x30u8;
        if !supported {
            proof {
                if text@.len() >= 7 {
                    assert(text@.take(7) != supported_prefix()) by {
                        if text@.take(7) == supported_prefix() {
                            assert(text@.take(7)[0] == text@[0]);
                            assert(text@.take(7)[1] == text@[1]);
                            assert(text@.take(7)[2] == text@[2]);
                            assert(text@.take(7)[3] == text@[3]);
                            assert(text@.take(7)[4] == text@[4]);
                            assert(text@.take(7)[5] == text@[5]);
                            assert(text@.take(7)[6] == text@[6]);
                        }
                    }
                }
            }
            return Err(HandshakeError::UnsupportedVersion(vstd::slice::slice_to_vec(text)));
        }
        assert(text@.take(7) =~= supported_prefix());
        let dash = find_byte(text, 4, DASH);
        let soft_start = if dash < text.len() {
            dash + 1
        } else {
            dash
        };
        let space = find_byte(text, soft_start, SPACE);
        let comments = if space < text.len() {
            copy_range(text, space + 1, text.len())
        } else {
            Vec::new()
        };
        let b = Banner {
            text: vstd::slice::slice_to_vec(text),
            version: copy_range(text, 4, dash),
            implementation: copy_range(text, soft_start, space),
            comments,
        };
        assert(b@.comments =~= banner_parts(text@).comments);
        Ok(b)
    }
}

} // verus!
