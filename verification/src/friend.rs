//! The friend list: sub-opcodes and result codes, a friend's online status,
//! and the decisions on adding and removing friends.

use vstd::prelude::*;
use crate::clan_nts::{same_ignoring_ascii_case, names_match};
use vstd::string::StringSliceAdditionalSpecFns;
use crate::packet::{Packet, PacketReader, le2, le4, twos, utf8};
use crate::request::{field_u8, field_u16, field_sbyte, field_string, take_u8, take_u16, take_sbyte_string, take_string};

verus! {

/// The friend list opcode.
pub const WIZ_FRIEND_PROCESS: u8 = 0x49;

/// The most friends a player keeps.
pub const MAX_FRIEND_COUNT: u16 = 24;

/// Sub-opcode: load the friend list.
pub const FRIEND_REQUEST: u8 = 1;

/// Sub-opcode: report the status of listed friends.
pub const FRIEND_REPORT: u8 = 2;

/// Sub-opcode: add a friend.
pub const FRIEND_ADD: u8 = 3;

/// Sub-opcode: remove a friend.
pub const FRIEND_REMOVE: u8 = 4;

/// Add result: added.
pub const FRIEND_ADD_SUCCESS: u8 = 0;

/// Add result: refused.
pub const FRIEND_ADD_ERROR: u8 = 1;

/// Add result: the list is full.
pub const FRIEND_ADD_FULL: u8 = 2;

/// Remove result: removed.
pub const FRIEND_REMOVE_SUCCESS: u8 = 0;

/// Remove result: refused.
pub const FRIEND_REMOVE_ERROR: u8 = 1;

/// Remove result: not on the list.
pub const FRIEND_REMOVE_NOT_FOUND: u8 = 2;

/// A friend's session id and status: offline friends are (-1, 0); online
/// friends carry their session id and status 3 when in a party, 1 otherwise.
pub open spec fn status_of(session: Option<u16>, in_party: bool) -> (i32, u8) {
    match session {
        Some(sid) => (sid as i32, if in_party {
            3u8
        } else {
            1u8
        }),
        None => (-1i32, 0u8),
    }
}

/// An offline friend is reported with session -1 and status 0; an online
/// one with its own session and status 1, or 3 when in a party.
pub proof fn lemma_friend_status(session: Option<u16>, in_party: bool)
    ensures
        (status_of(session, in_party).1 == 0) == (session is None),
        session is None ==> status_of(session, in_party).0 == -1,
        session matches Some(sid) ==> status_of(session, in_party).0 == sid && status_of(session, in_party).0 >= 0,
        session is Some ==> (status_of(session, in_party).1 == 3) == in_party,
{
}

/// A friend's session id and status.
pub fn get_friend_status(session: Option<u16>, in_party: bool) -> (r: (i32, u8))
    ensures
        r == status_of(session, in_party),
{
    match session {
        Some(sid) => (sid as i32, if in_party { 3u8 } else { 1u8 }),
        None => (-1i32, 0u8),
    }
}

/// A name a friend request may carry: not empty and at most `max_len` bytes.
pub fn valid_friend_name(name: &str, max_len: usize) -> (r: bool)
    ensures
        r == (name.spec_bytes().len() > 0 && name.spec_bytes().len() <= max_len),
{
    let n = name.as_bytes().len();
    n > 0 && n <= max_len
}

/// A status report asks for at most the friend-list size.
pub fn report_count_allowed(count: u16) -> (r: bool)
    ensures
        r == (count <= MAX_FRIEND_COUNT),
{
    count <= MAX_FRIEND_COUNT
}

/// The first checks of adding `target` to the list of `me`, who has `count`
/// friends: adding oneself (without regard to ASCII case) is refused, a
/// full list answers "full"; `None` means that the target is looked up next.
pub open spec fn add_precheck(target: Seq<u8>, me: Seq<u8>, count: i64) -> Option<u8> {
    if same_ignoring_ascii_case(target, me) {
        Some(FRIEND_ADD_ERROR)
    } else if count >= MAX_FRIEND_COUNT {
        Some(FRIEND_ADD_FULL)
    } else {
        None
    }
}

/// The first checks of a friend request.
pub fn friend_add_precheck(target: &str, me: &str, count: i64) -> (r: Option<u8>)
    ensures
        r == add_precheck(target.spec_bytes(), me.spec_bytes(), count),
{
    if names_match(target, me) {
        Some(FRIEND_ADD_ERROR)
    } else if count >= MAX_FRIEND_COUNT as i64 {
        Some(FRIEND_ADD_FULL)
    } else {
        None
    }
}

/// The answer to a friend request once the target was looked up: refused
/// when no such character exists, otherwise added unless already listed.
pub fn friend_add_result(target_exists: bool, inserted: bool) -> (r: u8)
    ensures
        r == if target_exists && inserted {
            FRIEND_ADD_SUCCESS
        } else {
            FRIEND_ADD_ERROR
        },
{
    if target_exists && inserted {
        FRIEND_ADD_SUCCESS
    } else {
        FRIEND_ADD_ERROR
    }
}

/// The answer to a removal: removed, or not on the list.
pub fn friend_remove_result(removed: bool) -> (r: u8)
    ensures
        r == if removed {
            FRIEND_REMOVE_SUCCESS
        } else {
            FRIEND_REMOVE_NOT_FOUND
        },
{
    if removed {
        FRIEND_REMOVE_SUCCESS
    } else {
        FRIEND_REMOVE_NOT_FOUND
    }
}

/// A list that the checks let grow stays within the friend-list size, and
/// nobody is ever let add himself.
pub proof fn lemma_add_keeps_list_bounded(target: Seq<u8>, me: Seq<u8>, count: i64)
    requires
        add_precheck(target, me, count) is None,
        count >= 0,
    ensures
        count + 1 <= MAX_FRIEND_COUNT,
        !same_ignoring_ascii_case(target, me),
{
}

/// The answer to adding or removing a friend: the sub-opcode, the result,
/// the name (two-byte-length string), the session id (32 bits) and the
/// status.
pub fn build_friend_modify_result(opcode: u8, result: u8, name: &str, sid: i32, status: u8) -> (r: Packet)
    requires
        name.spec_bytes().len() <= u16::MAX,
    ensures
        r.opcode == WIZ_FRIEND_PROCESS,
        r.data@ == seq![opcode, result] + le2(name.spec_bytes().len() as int) + name.spec_bytes() + le4(
            twos(sid as int, 32),
        ) + seq![status],
{
    let mut pkt = Packet::new(WIZ_FRIEND_PROCESS);
    pkt.write_u8(opcode);
    pkt.write_u8(result);
    pkt.write_string(name);
    pkt.write_i32(sid);
    pkt.write_u8(status);
    assert(pkt.data@ =~= seq![opcode, result] + le2(name.spec_bytes().len() as int) + name.spec_bytes() + le4(
        twos(sid as int, 32),
    ) + seq![status]);
    pkt
}

/// One friend in a list reply.
#[derive(Debug, Clone, PartialEq, Eq)]
pub struct FriendEntry {
    pub name: String,
    pub sid: i32,
    pub status: u8,
}

/// A friend on the wire: the name (two-byte-length string), the session id
/// and the status.
pub open spec fn friend_entry_bytes(e: FriendEntry) -> Seq<u8> {
    le2(utf8(e.name@).len() as int) + utf8(e.name@) + le4(twos(e.sid as int, 32)) + seq![e.status]
}

/// The friends on the wire, in order.
pub open spec fn friend_entries_bytes(entries: Seq<FriendEntry>) -> Seq<u8>
    decreases entries.len(),
{
    if entries.len() == 0 {
        Seq::empty()
    } else {
        friend_entries_bytes(entries.drop_last()) + friend_entry_bytes(entries.last())
    }
}

/// A list reply (to loading the list or to a status report): the
/// sub-opcode, the number of friends (16 bits) and each friend.
pub fn build_friend_list(sub: u8, entries: &Vec<FriendEntry>) -> (r: Packet)
    requires
        entries@.len() <= u16::MAX,
        forall|i: int| 0 <= i < entries@.len() ==> utf8((#[trigger] entries@[i]).name@).len() <= u16::MAX,
    ensures
        r.opcode == WIZ_FRIEND_PROCESS,
        r.data@ == seq![sub] + le2(entries@.len() as int) + friend_entries_bytes(entries@),
{
    let mut pkt = Packet::new(WIZ_FRIEND_PROCESS);
    pkt.write_u8(sub);
    pkt.write_u16(entries.len() as u16);
    let ghost head = pkt.data@;
    let mut i: usize = 0;
    while i < entries.len()
        invariant
            i <= entries@.len(),
            forall|j: int| 0 <= j < entries@.len() ==> utf8((#[trigger] entries@[j]).name@).len() <= u16::MAX,
            pkt.opcode == WIZ_FRIEND_PROCESS,
            pkt.data@ == head + friend_entries_bytes(entries@.take(i as int)),
        decreases entries@.len() - i,
    {
        let e = &entries[i];
        let ghost before = pkt.data@;
        assert(utf8(entries@[i as int].name@).len() <= u16::MAX);
        pkt.write_string(e.name.as_str());
        pkt.write_i32(e.sid);
        pkt.write_u8(e.status);
        proof {
            assert(entries@.take(i + 1).drop_last() =~= entries@.take(i as int));
            assert(entries@.take(i + 1).last() == entries@[i as int]);
            assert(pkt.data@ =~= before + friend_entry_bytes(*e));
        }
        i = i + 1;
    }
    proof {
        assert(entries@.take(entries@.len() as int) =~= entries@);
        assert(pkt.data@ =~= seq![sub] + le2(entries@.len() as int) + friend_entries_bytes(entries@));
    }
    pkt
}


/// A friend-list request as the client sends it.
#[derive(Debug, Clone, PartialEq, Eq)]
pub enum FriendRequest {
    /// Load the list.
    List,
    /// Report the status of the named friends.
    Report(Vec<Vec<u8>>),
    /// Add the named character.
    Add(Vec<u8>),
    /// Remove the named character.
    Remove(Vec<u8>),
    /// Unknown sub-opcode or malformed request: no answer.
    Ignored,
}

/// A name a request may carry: not empty and at most `max_len` bytes.
pub open spec fn name_ok(name: Seq<u8>, max_len: int) -> bool {
    0 < name.len() <= max_len
}

/// The bytes of each name.
pub open spec fn names_view(names: Seq<Vec<u8>>) -> Seq<Seq<u8>> {
    names.map_values(|v: Vec<u8>| v@)
}

/// The `k` names (two-byte-length strings) from `p` on, or `None` when one
/// of them is missing, empty or longer than `max_len`.
pub open spec fn report_names(d: Seq<u8>, p: int, k: nat, max_len: int) -> Option<Seq<Seq<u8>>>
    decreases k,
{
    if k == 0 {
        Some(Seq::empty())
    } else {
        let (name, q) = field_string(d, p);
        if !name_ok(name, max_len) {
            None
        } else {
            match report_names(d, q, (k - 1) as nat, max_len) {
                Some(rest) => Some(seq![name] + rest),
                None => None,
            }
        }
    }
}

/// What a friend-list request asks: the sub-opcode (zero when missing)
/// picks the list, a status report (a count of at most the list size, then
/// that many valid names), an addition or a removal (a valid short name);
/// anything else is ignored.
pub open spec fn friend_request_matches(r: FriendRequest, d: Seq<u8>, max_len: int) -> bool {
    let (sub, p1) = field_u8(d, 0);
    if sub == FRIEND_REQUEST {
        r is List
    } else if sub == FRIEND_REPORT {
        let (count, p2) = field_u16(d, p1);
        if count > MAX_FRIEND_COUNT {
            r is Ignored
        } else {
            match report_names(d, p2, count as nat, max_len) {
                Some(names) => r matches FriendRequest::Report(v) && names_view(v@) == names,
                None => r is Ignored,
            }
        }
    } else if sub == FRIEND_ADD || sub == FRIEND_REMOVE {
        let (name, _p2) = field_sbyte(d, p1);
        if !name_ok(name, max_len) {
            r is Ignored
        } else if sub == FRIEND_ADD {
            r matches FriendRequest::Add(v) && v@ == name
        } else {
            r matches FriendRequest::Remove(v) && v@ == name
        }
    } else {
        r is Ignored
    }
}

/// Reads a friend-list request, with names of at most `max_len` bytes.
pub fn parse_friend_request(data: &[u8], max_len: usize) -> (r: FriendRequest)
    ensures
        friend_request_matches(r, data@, max_len as int),
{
    let mut rd = PacketReader::new(data);
    let sub = take_u8(&mut rd);
    let ghost p1 = rd.position();
    if sub == FRIEND_REQUEST {
        FriendRequest::List
    } else if sub == FRIEND_REPORT {
        let count = take_u16(&mut rd);
        if count > MAX_FRIEND_COUNT {
            return FriendRequest::Ignored;
        }
        let ghost d = data@;
        let ghost p2 = rd.position();
        let ghost m = max_len as int;
        let mut names: Vec<Vec<u8>> = Vec::new();
        let mut i: u16 = 0;
        proof {
            match report_names(d, p2, count as nat, m) {
                Some(rest) => {
                    assert(names_view(names@) + rest =~= rest);
                },
                None => {},
            }
        }
        while i < count
            invariant
                rd.wf(),
                rd.bytes() == d,
                d == data@,
                m == max_len as int,
                field_u8(d, 0) == (sub, p1),
                field_u16(d, p1) == (count, p2),
                sub == FRIEND_REPORT,
                count <= MAX_FRIEND_COUNT,
                i <= count,
                match report_names(d, rd.position(), (count - i) as nat, m) {
                    Some(rest) => report_names(d, p2, count as nat, m) == Some(names_view(names@) + rest),
                    None => report_names(d, p2, count as nat, m) is None,
                },
            decreases count - i,
        {
            let ghost pos = rd.position();
            let name = take_string(&mut rd);
            if name.len() == 0 || name.len() > max_len {
                proof {
                    assert(!name_ok(name@, m));
                    assert(report_names(d, pos, (count - i) as nat, m) is None);
                }
                return FriendRequest::Ignored;
            }
            let ghost before = names@;
            names.push(name);
            proof {
                let k = (count - i) as nat;
                assert(names_view(names@) =~= names_view(before).push(name@));
                match report_names(d, rd.position(), (k - 1) as nat, m) {
                    Some(rest) => {
                        assert(names_view(before) + (seq![name@] + rest) =~= names_view(names@) + rest);
                    },
                    None => {},
                }
            }
            i = i + 1;
        }
        proof {
            assert(names_view(names@) + Seq::<Seq<u8>>::empty() =~= names_view(names@));
        }
        FriendRequest::Report(names)
    } else if sub == FRIEND_ADD || sub == FRIEND_REMOVE {
        let name = take_sbyte_string(&mut rd);
        if name.len() == 0 || name.len() > max_len {
            FriendRequest::Ignored
        } else if sub == FRIEND_ADD {
            FriendRequest::Add(name)
        } else {
            FriendRequest::Remove(name)
        }
    } else {
        FriendRequest::Ignored
    }
}

} // verus!
