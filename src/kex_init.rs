//! The algorithm-negotiation message: tag, cookie, ten name-lists, a flag and
//! a reserved word, read field by field through a cursor.
use vstd::prelude::*;

use crate::cursor::{Cursor, DEFAULT_LENGTH_CEILING};
use crate::error::{name_list_field, name_list_field_at, KexField, KexInitError, WireError};
use crate::name_list::{name_list_read, NameList};
use crate::packet::{packet_payload, Packet};
use crate::wire::be_u32_at;

verus! {

/// The message number of the negotiation message.
pub const MSG_KEXINIT: u8 = 20;

/// The length of the cookie.
pub const COOKIE_LEN: usize = 16;

/// The number of name-lists in the message.
pub const NAME_LIST_COUNT: usize = 10;

/// What a negotiation message stands for; the name-lists in protocol order.
pub struct KexInitModel {
    pub cookie: Seq<u8>,
    pub name_lists: Seq<Seq<Seq<char>>>,
    pub first_kex_packet_follows: bool,
    pub reserved: u32,
}

/// What reading the first `k` name-lists from `rest` gives: the lists and the
/// bytes they take, or the first failure with the field it happened in.
pub open spec fn name_lists_read(rest: Seq<u8>, ceiling: nat, k: nat) -> Result<
    (Seq<Seq<Seq<char>>>, nat),
    KexInitError,
>
    decreases k,
{
    if k == 0 {
        Ok((Seq::empty(), 0))
    } else {
        match name_lists_read(rest, ceiling, (k - 1) as nat) {
            Err(e) => Err(e),
            Ok((lists, used)) => match name_list_read(rest.skip(used as int), ceiling) {
                Err(e) => Err(KexInitError { field: name_list_field(k - 1), kind: e }),
                Ok((l, n)) => Ok((lists.push(l), used + n)),
            },
        }
    }
}

/// The offset of the first name-list in the payload.
pub open spec fn lists_start() -> int {
    1 + COOKIE_LEN
}

/// What decoding the negotiation payload `p` gives.
pub open spec fn kex_init_of(p: Seq<u8>) -> Result<KexInitModel, KexInitError> {
    if p.len() < 1 {
        Err(KexInitError { field: KexField::MessageType, kind: WireError::Truncated })
    } else if p[0] != MSG_KEXINIT {
        Err(KexInitError { field: KexField::MessageType, kind: WireError::UnexpectedMessageType })
    } else if p.len() < lists_start() {
        Err(KexInitError { field: KexField::Cookie, kind: WireError::Truncated })
    } else {
        match name_lists_read(
            p.skip(lists_start()),
            DEFAULT_LENGTH_CEILING as nat,
            NAME_LIST_COUNT as nat,
        ) {
            Err(e) => Err(e),
            Ok((lists, used)) => {
                let at = lists_start() + used;
                if p.len() < at + 1 {
                    Err(
                        KexInitError {
                            field: KexField::FirstKexPacketFollows,
                            kind: WireError::Truncated,
                        },
                    )
                } else if p.len() < at + 5 {
                    Err(KexInitError { field: KexField::Reserved, kind: WireError::Truncated })
                } else if p.len() > at + 5 {
                    Err(KexInitError { field: KexField::End, kind: WireError::TrailingData })
                } else {
                    Ok(
                        KexInitModel {
                            cookie: p.subrange(1, lists_start()),
                            name_lists: lists,
                            first_kex_packet_follows: p[at] != 0,
                            reserved: be_u32_at(p, at + 1),
                        },
                    )
                }
            },
        }
    }
}

/// What decoding a whole framed packet `raw` holding a negotiation message gives.
pub open spec fn kex_init_from_packet(raw: Seq<u8>) -> Result<KexInitModel, KexInitError> {
    match packet_payload(raw) {
        Err(e) => Err(KexInitError { field: KexField::Packet, kind: e }),
        Ok(p) => kex_init_of(p),
    }
}

/// A failure while reading the first name-lists is the failure of reading them all.
proof fn lemma_lists_failure_persists(rest: Seq<u8>, ceiling: nat, k: nat, m: nat)
    requires
        k <= m,
        name_lists_read(rest, ceiling, k) is Err,
    ensures
        name_lists_read(rest, ceiling, m) == name_lists_read(rest, ceiling, k),
    decreases m - k,
{
    if k < m {
        lemma_lists_failure_persists(rest, ceiling, k, (m - 1) as nat);
    }
}

/// A payload with any other message number than the negotiation message's is
/// refused as such, before anything else in it is read.
pub proof fn lemma_unexpected_message_type(p: Seq<u8>)
    requires
        p.len() >= 1,
        p[0] != MSG_KEXINIT,
    ensures
        kex_init_of(p) == Err::<KexInitModel, KexInitError>(
            KexInitError { field: KexField::MessageType, kind: WireError::UnexpectedMessageType },
        ),
{
}

/// When the name-lists read cleanly but the payload is longer or shorter than
/// the fields it holds, decoding fails, as `Truncated` or `TrailingData`.
pub proof fn lemma_length_mismatch_fails(p: Seq<u8>)
    requires
        p.len() >= lists_start(),
        p[0] == MSG_KEXINIT,
        name_lists_read(
            p.skip(lists_start()),
            DEFAULT_LENGTH_CEILING as nat,
            NAME_LIST_COUNT as nat,
        ) matches Ok((lists, used)) && p.len() != lists_start() + used + 5,
    ensures
        kex_init_of(p) matches Err(e) && (e.kind == WireError::Truncated || e.kind
            == WireError::TrailingData),
{
}

/// A payload that decodes is exactly as long as its fields: tag, cookie, the
/// ten name-lists, the flag and the reserved word.
pub proof fn lemma_decoded_length(p: Seq<u8>)
    requires
        kex_init_of(p) is Ok,
    ensures
        p.len() >= lists_start(),
        name_lists_read(
            p.skip(lists_start()),
            DEFAULT_LENGTH_CEILING as nat,
            NAME_LIST_COUNT as nat,
        ) matches Ok((lists, used)) && p.len() == lists_start() + used + 5,
{
}

/// The parsed negotiation message.
#[derive(Debug, Clone, PartialEq, Eq)]
pub struct KeyExchangeInit {
    pub cookie: Vec<u8>,
    pub kex_algorithms: NameList,
    pub server_host_key_algorithms: NameList,
    pub encryption_algorithms_client_to_server: NameList,
    pub encryption_algorithms_server_to_client: NameList,
    pub mac_algorithms_client_to_server: NameList,
    pub mac_algorithms_server_to_client: NameList,
    pub compression_algorithms_client_to_server: NameList,
    pub compression_algorithms_server_to_client: NameList,
    pub languages_client_to_server: NameList,
    pub languages_server_to_client: NameList,
    pub first_kex_packet_follows: bool,
    pub reserved: u32,
}

impl View for KeyExchangeInit {
    type V = KexInitModel;

    open spec fn view(&self) -> KexInitModel {
        KexInitModel {
            cookie: self.cookie@,
            name_lists: seq![
                self.kex_algorithms@,
                self.server_host_key_algorithms@,
                self.encryption_algorithms_client_to_server@,
                self.encryption_algorithms_server_to_client@,
                self.mac_algorithms_client_to_server@,
                self.mac_algorithms_server_to_client@,
                self.compression_algorithms_client_to_server@,
                self.compression_algorithms_server_to_client@,
                self.languages_client_to_server@,
                self.languages_server_to_client@,
            ],
            first_kex_packet_follows: self.first_kex_packet_follows,
            reserved: self.reserved,
        }
    }
}

/// The views of a vector of name-lists.
pub open spec fn list_views(v: Seq<NameList>) -> Seq<Seq<Seq<char>>> {
    v.map_values(|l: NameList| l@)
}

/// Reads the ten name-lists at the cursor.
fn read_name_lists<'a>(cur: &mut Cursor<'a>) -> (r: Result<Vec<NameList>, KexInitError>)
    requires
        old(cur).wf(),
    ensures
        final(cur).wf(),
        final(cur)@.data == old(cur)@.data,
        final(cur)@.ceiling == old(cur)@.ceiling,
        match name_lists_read(old(cur)@.rest(), old(cur)@.ceiling, NAME_LIST_COUNT as nat) {
            Ok((lists, used)) => r matches Ok(v) && list_views(v@) == lists && v@.len()
                == NAME_LIST_COUNT && final(cur)@ == old(cur)@.advanced(used),
            Err(e) => r matches Err(f) && f == e,
        },
{
    let ghost start = cur@;
    proof {
        cur.lemma_wf();
    }
    let mut lists: Vec<NameList> = Vec::new();
    let mut i: usize = 0;
    assert(list_views(lists@) =~= Seq::<Seq<Seq<char>>>::empty());
    assert(start.advanced(0) == start);
    while i < NAME_LIST_COUNT
        invariant
            i <= NAME_LIST_COUNT,
            lists@.len() == i,
            start == old(cur)@,
            cur.wf(),
            cur@.data == start.data,
            cur@.ceiling == start.ceiling,
            start.pos <= cur@.pos,
            start.pos <= start.data.len(),
            name_lists_read(start.rest(), start.ceiling, i as nat) == Ok::<
                (Seq<Seq<Seq<char>>>, nat),
                KexInitError,
            >((list_views(lists@), (cur@.pos - start.pos) as nat)),
        decreases NAME_LIST_COUNT - i,
    {
        let ghost used = (cur@.pos - start.pos) as nat;
        let ghost before = list_views(lists@);
        proof {
            cur.lemma_wf();
            assert(start.rest().skip(used as int) =~= cur@.rest());
        }
        match NameList::decode(&mut *cur) {
            Err(e) => {
                let field = name_list_field_at(i);
                proof {
                    lemma_lists_failure_persists(
                        start.rest(),
                        start.ceiling,
                        (i + 1) as nat,
                        NAME_LIST_COUNT as nat,
                    );
                }
                return Err(KexInitError { field, kind: e });
            },
            Ok(l) => {
                lists.push(l);
                assert(list_views(lists@) =~= before.push(l@));
            },
        }
        i = i + 1;
    }
    Ok(lists)
}

impl KeyExchangeInit {
    /// Decodes a negotiation payload. Every field is read through a cursor;
    /// a failure names the field it happened in.
    pub fn decode(payload: &[u8]) -> (r: Result<KeyExchangeInit, KexInitError>)
        ensures
            match kex_init_of(payload@) {
                Ok(m) => r matches Ok(k) && k@ == m,
                Err(e) => r matches Err(f) && f == e,
            },
    {
        let mut cur = Cursor::new(payload);
        let tag = match cur.read_u8() {
            Ok(b) => b,
            Err(e) => {
                return Err(KexInitError { field: KexField::MessageType, kind: e });
            },
        };
        if tag != MSG_KEXINIT {
            return Err(
                KexInitError { field: KexField::MessageType, kind: WireError::UnexpectedMessageType },
            );
        }
        let cookie = match cur.read_bytes(COOKIE_LEN) {
            Ok(b) => vstd::slice::slice_to_vec(b),
            Err(e) => {
                return Err(KexInitError { field: KexField::Cookie, kind: e });
            },
        };
        assert(cur@.rest() =~= payload@.skip(lists_start()));
        let ghost lists_at = cur@;
        let mut lists = match read_name_lists(&mut cur) {
            Ok(v) => v,
            Err(e) => {
                return Err(e);
            },
        };
        proof {
            cur.lemma_wf();
            assert(cur@.rest() =~= payload@.skip(cur@.pos as int));
        }
        let first = match cur.read_u8() {
            Ok(b) => b,
            Err(e) => {
                return Err(KexInitError { field: KexField::FirstKexPacketFollows, kind: e });
            },
        };
        let reserved = match cur.read_u32_be() {
            Ok(v) => v,
            Err(e) => {
                return Err(KexInitError { field: KexField::Reserved, kind: e });
            },
        };
        if cur.remaining() != 0 {
            return Err(KexInitError { field: KexField::End, kind: WireError::TrailingData });
        }
        let ghost all = list_views(lists@);
        let languages_server_to_client = lists.pop().unwrap();
        let languages_client_to_server = lists.pop().unwrap();
        let compression_algorithms_server_to_client = lists.pop().unwrap();
        let compression_algorithms_client_to_server = lists.pop().unwrap();
        let mac_algorithms_server_to_client = lists.pop().unwrap();
        let mac_algorithms_client_to_server = lists.pop().unwrap();
        let encryption_algorithms_server_to_client = lists.pop().unwrap();
        let encryption_algorithms_client_to_server = lists.pop().unwrap();
        let server_host_key_algorithms = lists.pop().unwrap();
        let kex_algorithms = lists.pop().unwrap();
        let k = KeyExchangeInit {
            cookie,
            kex_algorithms,
            server_host_key_algorithms,
            encryption_algorithms_client_to_server,
            encryption_algorithms_server_to_client,
            mac_algorithms_client_to_server,
            mac_algorithms_server_to_client,
            compression_algorithms_client_to_server,
            compression_algorithms_server_to_client,
            languages_client_to_server,
            languages_server_to_client,
            first_kex_packet_follows: first != 0,
            reserved,
        };
        assert(k@.name_lists =~= all);
        assert(k@.cookie =~= payload@.subrange(1, lists_start()));
        Ok(k)
    }

    /// Deframes one packet from `data`, which must hold the packet and nothing
    /// more, and decodes its payload as a negotiation message.
    pub fn from_raw(data: &[u8]) -> (r: Result<KeyExchangeInit, KexInitError>)
        ensures
            match kex_init_from_packet(data@) {
                Ok(m) => r matches Ok(k) && k@ == m,
                Err(e) => r matches Err(f) && f == e,
            },
    {
        match Packet::decode(data) {
            Err(e) => Err(KexInitError { field: KexField::Packet, kind: e }),
            Ok(packet) => KeyExchangeInit::decode(packet.payload.as_slice()),
        }
    }
}

} // verus!
