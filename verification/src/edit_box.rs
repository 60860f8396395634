//! Serial-code (PPCard) redemption: the cooldown between attempts and the
//! format of a key, a four-digit number followed by sixteen bytes.

use vstd::prelude::*;
use crate::packet::PacketReader;
use crate::request::{field_u8, field_i32, field_sbyte, take_u8, take_i32, take_sbyte_string};
use crate::packet::Packet;
use vstd::string::StringSliceAdditionalSpecFns;

verus! {

/// The edit-box sub-opcode of serial-code redemption.
pub const PPCARD_SUB_OPCODE: u8 = 4;

/// Result: the serial was redeemed.
pub const PPCARD_SUCCESS: u8 = 1;

/// Result: the serial was refused.
pub const PPCARD_FAILED: u8 = 2;

/// Seconds between two redemption attempts.
pub const PPCARD_COOLDOWN_SECS: u64 = 40;

/// Milliseconds between two redemption attempts.
pub const PPCARD_COOLDOWN_MS: u64 = 40_000;

/// Bytes in the part of a key after the number.
pub const PPCARD_SUFFIX_LEN: usize = 16;

/// Bytes in a whole key.
pub const PPCARD_KEY_LEN: usize = 20;

/// An attempt at `now_ms` is refused when less than the cooldown has passed
/// since the last attempt at `last_ms` (an attempt stamped later than now
/// counts as no time passed).
pub open spec fn on_cooldown(now_ms: u64, last_ms: u64) -> bool {
    now_ms < last_ms + PPCARD_COOLDOWN_MS
}

/// Whether an attempt now falls within the cooldown of the last one.
pub fn ppcard_on_cooldown(now_ms: u64, last_ms: u64) -> (r: bool)
    ensures
        r == on_cooldown(now_ms, last_ms),
{
    if now_ms <= last_ms {
        true
    } else {
        now_ms - last_ms < PPCARD_COOLDOWN_MS
    }
}

/// The number part of a key is valid when its decimal form has exactly four
/// digits and no sign, that is from 1000 to 9999.
pub open spec fn valid_prefix(prefix: i32) -> bool {
    1000 <= prefix <= 9999
}

/// The ASCII digit of a number from 0 to 9.
pub open spec fn ascii_digit(d: int) -> u8 {
    (48 + d) as u8
}

/// The four ASCII digits of a number from 1000 to 9999.
pub open spec fn prefix_digits(prefix: int) -> Seq<u8> {
    seq![
        ascii_digit(prefix / 1000),
        ascii_digit((prefix / 100) % 10),
        ascii_digit((prefix / 10) % 10),
        ascii_digit(prefix % 10),
    ]
}

/// The key of a number and a suffix: the four digits followed by the
/// sixteen suffix bytes; `None` when either part is malformed.
pub open spec fn key_of(prefix: i32, suffix: Seq<u8>) -> Option<Seq<u8>> {
    if valid_prefix(prefix) && suffix.len() == PPCARD_SUFFIX_LEN {
        Some(prefix_digits(prefix as int) + suffix)
    } else {
        None
    }
}

/// A key starts with the decimal digits of its number, most significant
/// first, and ends with the suffix unchanged; so two keys are equal only
/// for equal numbers and suffixes.
pub proof fn lemma_key_spells_prefix(prefix: i32, suffix: Seq<u8>, prefix2: i32, suffix2: Seq<u8>)
    requires
        key_of(prefix, suffix) is Some,
    ensures
        ({
            let k = key_of(prefix, suffix)->0;
            &&& k.len() == 20
            &&& forall|i: int| 0 <= i < 4 ==> 48 <= #[trigger] k[i] <= 57
            &&& (k[0] - 48) * 1000 + (k[1] - 48) * 100 + (k[2] - 48) * 10 + (k[3] - 48) == prefix
            &&& k.subrange(4, 20) == suffix
            &&& key_of(prefix2, suffix2) == Some(k) ==> prefix2 == prefix && suffix2 == suffix
        }),
{
    let k = key_of(prefix, suffix)->0;
    assert(k.subrange(4, 20) =~= suffix);
    let p = prefix as int;
    assert(p == 1000 * (p / 1000) + 100 * ((p / 100) % 10) + 10 * ((p / 10) % 10) + p % 10) by (nonlinear_arith)
        requires
            1000 <= p <= 9999,
    ;
    if key_of(prefix2, suffix2) == Some(k) {
        let k2 = key_of(prefix2, suffix2)->0;
        let q = prefix2 as int;
        assert(q == 1000 * (q / 1000) + 100 * ((q / 100) % 10) + 10 * ((q / 10) % 10) + q % 10) by (nonlinear_arith)
            requires
                1000 <= q <= 9999,
        ;
        assert(k2.subrange(4, 20) =~= suffix2);
    }
}

/// Builds the key to look up from its number and suffix.
pub fn ppcard_key(prefix: i32, suffix: &[u8]) -> (r: Option<Vec<u8>>)
    ensures
        match key_of(prefix, suffix@) {
            Some(k) => r matches Some(v) && v@ == k && v@.len() == PPCARD_KEY_LEN,
            None => r is None,
        },
{
    if prefix < 1000 || prefix > 9999 || suffix.len() != PPCARD_SUFFIX_LEN {
        return None;
    }
    let p = prefix as u32;
    let mut key: Vec<u8> = Vec::new();
    key.push((48 + p / 1000) as u8);
    key.push((48 + (p / 100) % 10) as u8);
    key.push((48 + (p / 10) % 10) as u8);
    key.push((48 + p % 10) as u8);
    let mut i: usize = 0;
    while i < suffix.len()
        invariant
            i <= suffix@.len(),
            1000 <= p <= 9999,
            p == prefix,
            key@ == prefix_digits(prefix as int) + suffix@.take(i as int),
        decreases suffix@.len() - i,
    {
        key.push(suffix[i]);
        proof {
            assert(suffix@.take(i + 1) =~= suffix@.take(i as int).push(suffix@[i as int]));
        }
        i = i + 1;
    }
    proof {
        assert(suffix@.take(suffix@.len() as int) =~= suffix@);
    }
    Some(key)
}

/// What to do with a redemption attempt.
#[derive(Debug, Clone, PartialEq, Eq)]
pub enum PpcardCheck {
    /// Within the cooldown: refuse and keep the old stamp.
    Cooldown,
    /// Malformed key: refuse; the attempt is stamped.
    BadKey,
    /// Look up this key; the attempt is stamped.
    Redeem(Vec<u8>),
}

/// Checks a redemption attempt at `now_ms` after the last one at `last_ms`:
/// the cooldown first, then the key's form. Every attempt past the cooldown
/// starts a new cooldown, whatever follows.
pub fn ppcard_check(now_ms: u64, last_ms: u64, prefix: i32, suffix: &[u8]) -> (r: PpcardCheck)
    ensures
        on_cooldown(now_ms, last_ms) ==> r is Cooldown,
        !on_cooldown(now_ms, last_ms) ==> match key_of(prefix, suffix@) {
            Some(k) => r matches PpcardCheck::Redeem(v) && v@ == k,
            None => r is BadKey,
        },
{
    if ppcard_on_cooldown(now_ms, last_ms) {
        return PpcardCheck::Cooldown;
    }
    match ppcard_key(prefix, suffix) {
        Some(k) => PpcardCheck::Redeem(k),
        None => PpcardCheck::BadKey,
    }
}

/// The stamp of the last attempt after the check `check` of an attempt
/// at `now_ms`: an attempt refused for the cooldown keeps the old stamp
/// `last_ms`, every other attempt is stamped with its own time.
pub fn ppcard_next_stamp(check: &PpcardCheck, now_ms: u64, last_ms: u64) -> (r: u64)
    ensures
        r == (if *check is Cooldown {
            last_ms
        } else {
            now_ms
        }),
{
    match check {
        PpcardCheck::Cooldown => last_ms,
        _ => now_ms,
    }
}

/// A serial is only redeemed for a session with an account and a character.
pub fn ppcard_identity_known(account_id: &str, char_name: &str) -> (r: bool)
    ensures
        r == (account_id.spec_bytes().len() > 0 && char_name.spec_bytes().len() > 0),
{
    account_id.as_bytes().len() > 0 && char_name.as_bytes().len() > 0
}

/// The result code of a lookup.
pub fn ppcard_result(redeemed: bool) -> (r: u8)
    ensures
        r == if redeemed {
            PPCARD_SUCCESS
        } else {
            PPCARD_FAILED
        },
{
    if redeemed {
        PPCARD_SUCCESS
    } else {
        PPCARD_FAILED
    }
}

/// An attempt that passed the cooldown stamps the time, so every attempt
/// within the next forty seconds is refused.
pub proof fn lemma_attempts_spaced(stamp: u64, later: u64)
    requires
        stamp <= later < stamp + PPCARD_COOLDOWN_MS,
    ensures
        on_cooldown(later, stamp),
{
}

/// The edit-box opcode.
pub const WIZ_EDIT_BOX: u8 = 0x59;

/// The result of a redemption attempt.
pub fn build_ppcard_result(error_code: u8) -> (r: Packet)
    ensures
        r.opcode == WIZ_EDIT_BOX,
        r.data@ == seq![PPCARD_SUB_OPCODE, error_code],
{
    let mut pkt = Packet::new(WIZ_EDIT_BOX);
    pkt.write_u8(PPCARD_SUB_OPCODE);
    pkt.write_u8(error_code);
    assert(pkt.data@ =~= seq![PPCARD_SUB_OPCODE, error_code]);
    pkt
}

/// A serial-code request: the number part and the suffix bytes.
#[derive(Debug, Clone, PartialEq, Eq)]
pub struct PpcardRequest {
    pub prefix: i32,
    pub suffix: Vec<u8>,
}

/// An edit-box request: a redemption when the sub-opcode is 4, with the
/// number (zero when missing) and the suffix (empty when missing); any
/// other sub-opcode gets no answer.
pub open spec fn edit_box_request_of(d: Seq<u8>) -> Option<(i32, Seq<u8>)> {
    let (sub, p1) = field_u8(d, 0);
    if sub == PPCARD_SUB_OPCODE {
        let (prefix, p2) = field_i32(d, p1);
        let (suffix, _p3) = field_sbyte(d, p2);
        Some((prefix, suffix))
    } else {
        None
    }
}

/// Reads an edit-box request.
pub fn parse_edit_box_request(data: &[u8]) -> (r: Option<PpcardRequest>)
    ensures
        match edit_box_request_of(data@) {
            Some((prefix, suffix)) => r matches Some(q) && q.prefix == prefix && q.suffix@ == suffix,
            None => r is None,
        },
{
    let mut rd = PacketReader::new(data);
    let sub = take_u8(&mut rd);
    if sub != PPCARD_SUB_OPCODE {
        return None;
    }
    let prefix = take_i32(&mut rd);
    let suffix = take_sbyte_string(&mut rd);
    Some(PpcardRequest { prefix, suffix })
}

} // verus!
