//! Name-lists: a length-prefixed, comma-separated list of algorithm names.
use vstd::prelude::*;
use vstd::utf8::{decode_utf8, valid_utf8};

use crate::cursor::{length_prefixed, Cursor, DEFAULT_LENGTH_CEILING};
use crate::error::WireError;
use crate::wire::{be_u32_at, lemma_be_u32_round_trip, u32_be_bytes};

verus! {

/// The byte that separates the names of a name-list.
pub const COMMA: u8 = 0x2c;

/// The pieces of `s` between occurrences of `sep`, in order; there is always
/// one piece more than there are separators.
pub open spec fn split_on(s: Seq<u8>, sep: u8) -> Seq<Seq<u8>>
    decreases s.len(),
{
    if s.len() == 0 {
        seq![Seq::empty()]
    } else {
        let prev = split_on(s.drop_last(), sep);
        if s.last() == sep {
            prev.push(Seq::empty())
        } else {
            prev.update(prev.len() - 1, prev.last().push(s.last()))
        }
    }
}

/// The names that the content of a name-list holds, or `None` when a name is
/// not well-formed UTF-8. Empty content holds no names at all.
pub open spec fn names_of(content: Seq<u8>) -> Option<Seq<Seq<char>>> {
    if content.len() == 0 {
        Some(Seq::empty())
    } else {
        let ps = split_on(content, COMMA);
        if forall|i: int| 0 <= i < ps.len() ==> valid_utf8(#[trigger] ps[i]) {
            Some(Seq::new(ps.len(), |i: int| decode_utf8(ps[i])))
        } else {
            None
        }
    }
}

/// What reading a name-list from `rest` gives: the names and the number of
/// bytes the field takes, or why it cannot be read.
pub open spec fn name_list_read(rest: Seq<u8>, ceiling: nat) -> Result<
    (Seq<Seq<char>>, nat),
    WireError,
> {
    match length_prefixed(rest, ceiling) {
        Err(e) => Err(e),
        Ok(content) => match names_of(content) {
            Some(names) => Ok((names, 4 + content.len())),
            None => Err(WireError::InvalidUtf8),
        },
    }
}

/// A name-list field that declares a length of at most 244 bytes reads without
/// a short-read failure when all its bytes are there (and in full when its
/// names are well-formed UTF-8), and as `Truncated` when any byte is missing.
pub proof fn lemma_name_list_exact_length(n: u32, body: Seq<u8>, m: nat)
    requires
        n <= 244,
        body.len() == n,
        m <= n + 3,
    ensures
        length_prefixed(u32_be_bytes(n) + body, DEFAULT_LENGTH_CEILING as nat) == Ok::<
            Seq<u8>,
            WireError,
        >(body),
        name_list_read(u32_be_bytes(n) + body, DEFAULT_LENGTH_CEILING as nat) == match names_of(
            body,
        ) {
            Some(names) => Ok::<(Seq<Seq<char>>, nat), WireError>((names, (n + 4) as nat)),
            None => Err::<(Seq<Seq<char>>, nat), WireError>(WireError::InvalidUtf8),
        },
        name_list_read((u32_be_bytes(n) + body).take(m as int), DEFAULT_LENGTH_CEILING as nat)
            == Err::<(Seq<Seq<char>>, nat), WireError>(WireError::Truncated),
{
    let buf = u32_be_bytes(n) + body;
    lemma_be_u32_round_trip(n);
    assert(be_u32_at(buf, 0) == be_u32_at(u32_be_bytes(n), 0));
    assert(buf.subrange(4, 4 + n as int) =~= body);
    if m >= 4 {
        let short = buf.take(m as int);
        assert(be_u32_at(short, 0) == be_u32_at(buf, 0));
    }
}

/// A declared length that exceeds the bytes left by more than the ceiling is
/// `LengthOverflow`, whatever follows it.
pub proof fn lemma_length_overflow(rest: Seq<u8>, ceiling: nat)
    requires
        rest.len() >= 4,
        be_u32_at(rest, 0) > rest.len() - 4 + ceiling,
    ensures
        length_prefixed(rest, ceiling) == Err::<Seq<u8>, WireError>(WireError::LengthOverflow),
        name_list_read(rest, ceiling) == Err::<(Seq<Seq<char>>, nat), WireError>(
            WireError::LengthOverflow,
        ),
{
}

/// Relies on std::str::from_utf8: it succeeds exactly on well-formed UTF-8,
/// and then gives the text that the bytes encode.
#[verifier::external_body]
fn utf8_str<'a>(b: &'a [u8]) -> (r: Option<&'a str>)
    ensures
        r.is_some() <==> valid_utf8(b@),
        r matches Some(s) ==> s@ == decode_utf8(b@),
{
    std::str::from_utf8(b).ok()
}

/// The byte strings of a vector of byte vectors.
pub open spec fn byte_seqs(v: Seq<Vec<u8>>) -> Seq<Seq<u8>> {
    v.map_values(|b: Vec<u8>| b@)
}

/// Splits `content` at each comma.
fn split_commas(content: &[u8]) -> (r: Vec<Vec<u8>>)
    ensures
        byte_seqs(r@) == split_on(content@, COMMA),
{
    let mut done: Vec<Vec<u8>> = Vec::new();
    let mut piece: Vec<u8> = Vec::new();
    let mut i: usize = 0;
    assert(content@.take(0) =~= Seq::<u8>::empty());
    assert(byte_seqs(done@).push(piece@) =~= seq![Seq::<u8>::empty()]);
    while i < content.len()
        invariant
            i <= content@.len(),
            split_on(content@.take(i as int), COMMA) == byte_seqs(done@).push(piece@),
        decreases content@.len() - i,
    {
        let b = content[i];
        let ghost prev = byte_seqs(done@).push(piece@);
        assert(content@.take(i + 1).drop_last() =~= content@.take(i as int));
        if b == COMMA {
            done.push(piece);
            piece = Vec::new();
            assert(byte_seqs(done@).push(piece@) =~= prev.push(Seq::empty()));
        } else {
            piece.push(b);
            assert(byte_seqs(done@).push(piece@) =~= prev.update(
                prev.len() - 1,
                prev.last().push(b),
            ));
        }
        i = i + 1;
    }
    let ghost last = byte_seqs(done@).push(piece@);
    done.push(piece);
    assert(content@.take(i as int) =~= content@);
    assert(byte_seqs(done@) =~= last);
    done
}

/// Decodes the names held by the content of a name-list.
fn names_from_content(content: &[u8]) -> (r: Result<Vec<String>, WireError>)
    ensures
        match names_of(content@) {
            Some(names) => r matches Ok(v) && v@.map_values(|s: String| s@) == names,
            None => r == Err::<Vec<String>, WireError>(WireError::InvalidUtf8),
        },
{
    let mut names: Vec<String> = Vec::new();
    if content.len() == 0 {
        assert(names@.map_values(|s: String| s@) =~= Seq::<Seq<char>>::empty());
        return Ok(names);
    }
    let pieces = split_commas(content);
    let ghost ps = split_on(content@, COMMA);
    let mut j: usize = 0;
    while j < pieces.len()
        invariant
            j <= pieces@.len(),
            byte_seqs(pieces@) == ps,
            ps == split_on(content@, COMMA),
            forall|k: int| 0 <= k < j ==> valid_utf8(#[trigger] ps[k]),
            names@.map_values(|s: String| s@) == Seq::new(j as nat, |k: int| decode_utf8(ps[k])),
        decreases pieces@.len() - j,
    {
        assert(pieces@[j as int]@ == ps[j as int]);
        let ghost before = names@.map_values(|s: String| s@);
        match utf8_str(pieces[j].as_slice()) {
            None => {
                assert(!valid_utf8(ps[j as int]));
                return Err(WireError::InvalidUtf8);
            },
            Some(s) => {
                let name = s.to_owned();
                names.push(name);
                assert(names@.map_values(|s: String| s@) =~= before.push(decode_utf8(ps[j as int])));
            },
        }
        j = j + 1;
        assert(names@.map_values(|s: String| s@) =~= Seq::new(
            j as nat,
            |k: int| decode_utf8(ps[k]),
        ));
    }
    Ok(names)
}

/// One algorithm-preference list, most preferred first, as transmitted:
/// order kept, duplicates kept.
#[derive(Debug, Clone, PartialEq, Eq)]
pub struct NameList {
    pub names: Vec<String>,
}

impl View for NameList {
    type V = Seq<Seq<char>>;

    open spec fn view(&self) -> Seq<Seq<char>> {
        self.names@.map_values(|s: String| s@)
    }
}

impl NameList {
    /// Reads one name-list at the cursor. On success the cursor has moved past
    /// the whole field.
    pub fn decode<'a>(cur: &mut Cursor<'a>) -> (r: Result<NameList, WireError>)
        requires
            old(cur).wf(),
        ensures
            final(cur).wf(),
            final(cur)@.data == old(cur)@.data,
            final(cur)@.ceiling == old(cur)@.ceiling,
            match name_list_read(old(cur)@.rest(), old(cur)@.ceiling) {
                Ok((names, used)) => r matches Ok(l) && l@ == names && final(cur)@ == old(
                    cur,
                )@.advanced(used),
                Err(e) => r matches Err(f) && f == e,
            },
    {
        let content = match cur.read_length_prefixed_bytes() {
            Ok(b) => b,
            Err(e) => {
                return Err(e);
            },
        };
        match names_from_content(content) {
            Ok(names) => Ok(NameList { names }),
            Err(e) => Err(e),
        }
    }

    /// The number of names.
    pub fn len(&self) -> (r: usize)
        ensures
            r == self@.len(),
    {
        self.names.len()
    }

    /// Whether the list holds no names.
    pub fn is_empty(&self) -> (r: bool)
        ensures
            r == (self@.len() == 0),
    {
        self.names.len() == 0
    }
}

} // verus!
