//! The interface enumerator.
//!
//! The OS hands out its interface table through a two-phase protocol: a first
//! call with an empty buffer that is expected to fail with a buffer-too-small
//! status while reporting the required size, then a second call that fills a
//! caller-allocated buffer of that size. A filled buffer holds a 4-byte
//! little-endian record count followed by that many fixed-size records of 268
//! bytes each: a 4-byte little-endian interface index, a 256-byte fixed-width
//! NUL-padded name, and two 4-byte little-endian traffic counters (bytes in,
//! bytes out).
//!
//! Everything here validates the reported count against the actual buffer
//! length before parsing, and any protocol deviation collapses to an empty
//! result, never to partially-parsed data.

use vstd::prelude::*;

use vstd::arithmetic::mul::lemma_mul_inequality;
use vstd::bytes::{spec_u32_from_le_bytes, u32_from_le_bytes};
use vstd::slice::slice_subrange;

use crate::convert::spec_dec;
use crate::convert::dec_string;

verus! {

/// The status a sizing call answers when handed an empty buffer: buffer too
/// small, the expected first-phase outcome.
pub const STATUS_BUFFER_TOO_SMALL: u32 = 122;

/// The status of a successful second-phase fill call.
pub const STATUS_OK: u32 = 0;

/// One two-phase enumeration exchange as observed by the caller: the status
/// of the sizing call, the status of the fill call, and the buffer the fill
/// call wrote.
pub struct TableProbe {
    pub first_status: u32,
    pub second_status: u32,
    pub buffer: Vec<u8>,
}

/// The record count a filled buffer claims to hold.
pub open spec fn spec_count(b: Seq<u8>) -> nat
    recommends
        b.len() >= 4,
{
    spec_u32_from_le_bytes(b.subrange(0, 4)) as nat
}

/// A filled buffer is well-formed when it holds the count field and as many
/// whole 268-byte records as the count claims.
pub open spec fn table_wf(b: Seq<u8>) -> bool {
    &&& b.len() >= 4
    &&& b.len() >= 4 + spec_count(b) * 268
}

impl TableProbe {
    /// An exchange is accepted only when the protocol ran as designed: the
    /// sizing call signalled buffer-too-small, the fill call succeeded, and
    /// the buffer is large enough for the count it reports.
    pub open spec fn accepted(self) -> bool {
        &&& self.first_status == STATUS_BUFFER_TOO_SMALL
        &&& self.second_status == STATUS_OK
        &&& table_wf(self.buffer@)
    }
}

/// The index field of record `i`.
pub open spec fn rec_index(b: Seq<u8>, i: int) -> u32 {
    spec_u32_from_le_bytes(b.subrange(4 + 268 * i, 4 + 268 * i + 4))
}

/// The fixed-width, NUL-padded name field of record `i`.
pub open spec fn rec_name(b: Seq<u8>, i: int) -> Seq<u8> {
    b.subrange(4 + 268 * i + 4, 4 + 268 * i + 260)
}

/// The bytes-in counter of record `i`.
pub open spec fn rec_in(b: Seq<u8>, i: int) -> u32 {
    spec_u32_from_le_bytes(b.subrange(4 + 268 * i + 260, 4 + 268 * i + 264))
}

/// The bytes-out counter of record `i`.
pub open spec fn rec_out(b: Seq<u8>, i: int) -> u32 {
    spec_u32_from_le_bytes(b.subrange(4 + 268 * i + 264, 4 + 268 * i + 268))
}

/// `s` with its trailing NUL bytes removed; interior NUL bytes stay.
pub open spec fn trim_nul(s: Seq<u8>) -> Seq<u8>
    decreases s.len(),
{
    if s.len() > 0 && s.last() == 0 {
        trim_nul(s.drop_last())
    } else {
        s
    }
}

/// Trimming strips exactly the trailing NUL padding and nothing else: a name
/// that does not itself end in NUL comes back whole, however much padding
/// was appended, so interior NUL bytes are never cut.
pub proof fn lemma_trim_nul_strips_padding_only(name: Seq<u8>, pad: Seq<u8>)
    requires
        name.len() == 0 || name.last() != 0,
        forall|i: int| 0 <= i < pad.len() ==> pad[i] == 0,
    ensures
        trim_nul(name + pad) == name,
    decreases pad.len(),
{
    if pad.len() == 0 {
        assert(name + pad =~= name);
    } else {
        assert((name + pad).last() == 0);
        assert((name + pad).drop_last() =~= name + pad.drop_last());
        lemma_trim_nul_strips_padding_only(name, pad.drop_last());
    }
}

/// The text that lenient, best-effort UTF-8 decoding makes of a byte
/// sequence.
pub uninterp spec fn lossy_decode(b: Seq<u8>) -> Seq<char>;

/// Relies on String::from_utf8_lossy: the decoded text is a function of the
/// bytes alone, and an empty input decodes to an empty string.
#[verifier::external_body]
fn utf8_lossy(b: &[u8]) -> (r: String)
    ensures
        r@ == lossy_decode(b@),
        b@.len() == 0 ==> r@.len() == 0,
{
    String::from_utf8_lossy(b).into_owned()
}

/// Decodes a fixed-width, NUL-padded name field: trailing NUL padding is
/// stripped first (from the end only, so interior NUL bytes survive), then
/// the rest is decoded leniently.
pub fn decode_name(bytes: &[u8]) -> (r: String)
    ensures
        r@ == lossy_decode(trim_nul(bytes@)),
{
    let mut end: usize = bytes.len();
    proof {
        assert(bytes@.subrange(0, bytes@.len() as int) =~= bytes@);
    }
    while end > 0 && bytes[end - 1] == 0
        invariant
            end <= bytes@.len(),
            trim_nul(bytes@) == trim_nul(bytes@.subrange(0, end as int)),
        decreases end,
    {
        proof {
            let s = bytes@.subrange(0, end as int);
            assert(s.last() == 0);
            assert(s.drop_last() =~= bytes@.subrange(0, end - 1));
        }
        end = end - 1;
    }
    proof {
        let s = bytes@.subrange(0, end as int);
        if end > 0 {
            assert(s.last() == bytes@[end - 1]);
        }
        assert(trim_nul(s) == s);
    }
    utf8_lossy(slice_subrange(bytes, 0, end))
}

/// Checks one two-phase exchange: both statuses as the protocol demands, and
/// the reported record count covered by the actual buffer length. Answers the
/// count when everything holds; any deviation is rejected before a single
/// record is parsed.
pub fn validate_table(p: &TableProbe) -> (r: Option<u32>)
    ensures
        match r {
            Option::Some(c) => p.accepted() && c as nat == spec_count(p.buffer@),
            Option::None => !p.accepted(),
        },
{
    if p.first_status != STATUS_BUFFER_TOO_SMALL || p.second_status != STATUS_OK {
        return Option::None;
    }
    if p.buffer.len() < 4 {
        return Option::None;
    }
    let count = u32_from_le_bytes(slice_subrange(p.buffer.as_slice(), 0, 4));
    if (p.buffer.len() as u64) < 4 + (count as u64) * 268 {
        return Option::None;
    }
    Option::Some(count)
}

/// Enumerates the interfaces of an accepted exchange as `(index, name)`
/// pairs, in the order the OS returned them. A rejected exchange yields the
/// empty list, never partial data.
pub fn get_interface_list(p: &TableProbe) -> (r: Vec<(u32, String)>)
    ensures
        !p.accepted() ==> r@.len() == 0,
        p.accepted() ==> r@.len() == spec_count(p.buffer@),
        forall|i: int|
            0 <= i < r@.len() ==> (#[trigger] r@[i]).0 == rec_index(p.buffer@, i),
        forall|i: int|
            0 <= i < r@.len() ==> (#[trigger] r@[i]).1@ == lossy_decode(
                trim_nul(rec_name(p.buffer@, i)),
            ),
{
    let count: u32 = match validate_table(p) {
        Option::Some(c) => c,
        Option::None => {
            return Vec::new();
        },
    };
    let count: usize = count as usize;
    let blen: usize = p.buffer.len();
    let mut out: Vec<(u32, String)> = Vec::new();
    let mut i: usize = 0;
    while i < count
        invariant
            p.accepted(),
            count as nat == spec_count(p.buffer@),
            blen == p.buffer@.len(),
            4 + count * 268 <= blen,
            i <= count,
            out@.len() == i,
            forall|j: int|
                0 <= j < i ==> (#[trigger] out@[j]).0 == rec_index(p.buffer@, j),
            forall|j: int|
                0 <= j < i ==> (#[trigger] out@[j]).1@ == lossy_decode(
                    trim_nul(rec_name(p.buffer@, j)),
                ),
        decreases count - i,
    {
        proof {
            lemma_mul_inequality(i as int, count as int, 268);
            lemma_mul_inequality(i as int + 1, count as int, 268);
            assert(4 + (i as int) * 268 + 268 <= p.buffer@.len());
        }
        let base: usize = 4 + i * 268;
        let idx = u32_from_le_bytes(slice_subrange(p.buffer.as_slice(), base, base + 4));
        let name = decode_name(slice_subrange(p.buffer.as_slice(), base + 4, base + 260));
        out.push((idx, name));
        i = i + 1;
    }
    out
}

/// The linear scan behind a stats lookup: the counters of the first record at
/// or after position `i` whose index field matches, if any.
pub open spec fn spec_find_stats(b: Seq<u8>, index: u32, i: nat) -> Option<(u32, u32)>
    decreases spec_count(b) - i,
{
    if i >= spec_count(b) {
        Option::None
    } else if rec_index(b, i as int) == index {
        Option::Some((rec_in(b, i as int), rec_out(b, i as int)))
    } else {
        spec_find_stats(b, index, i + 1)
    }
}

/// What a stats lookup answers: the counters of the first matching record of
/// an accepted exchange, or the not-found sentinel.
pub open spec fn spec_stats_for(p: TableProbe, index: u32) -> Option<(u32, u32)> {
    if p.accepted() {
        spec_find_stats(p.buffer@, index, 0)
    } else {
        Option::None
    }
}

proof fn lemma_find_stats_no_match(b: Seq<u8>, index: u32, i: nat)
    requires
        forall|j: int| i <= j < spec_count(b) ==> #[trigger] rec_index(b, j) != index,
    ensures
        spec_find_stats(b, index, i) is None,
    decreases spec_count(b) - i,
{
    if i < spec_count(b) {
        lemma_find_stats_no_match(b, index, i + 1);
    }
}

/// An index that no record of the table carries is answered with the
/// not-found sentinel, never with a zero-filled success.
pub proof fn lemma_stats_for_absent(p: TableProbe, index: u32)
    requires
        forall|i: int| 0 <= i < spec_count(p.buffer@) ==> #[trigger] rec_index(p.buffer@, i)
            != index,
    ensures
        spec_stats_for(p, index) is None,
{
    if p.accepted() {
        lemma_find_stats_no_match(p.buffer@, index, 0);
    }
}

/// Looks up the traffic counters of the interface with the given index by
/// scanning a fresh enumeration exchange. Present if and only if the exchange
/// was accepted and some record carries the index; an absent index is a
/// tolerated race, answered by the sentinel.
pub fn stats_for(p: &TableProbe, index: u32) -> (r: Option<(u32, u32)>)
    ensures
        r == spec_stats_for(*p, index),
        r is Some ==> exists|i: int|
            0 <= i < spec_count(p.buffer@) && #[trigger] rec_index(p.buffer@, i) == index,
        (p.accepted() && exists|i: int|
            0 <= i < spec_count(p.buffer@) && #[trigger] rec_index(p.buffer@, i) == index)
            ==> r is Some,
{
    let count: u32 = match validate_table(p) {
        Option::Some(c) => c,
        Option::None => {
            return Option::None;
        },
    };
    let count: usize = count as usize;
    let blen: usize = p.buffer.len();
    let ghost b = p.buffer@;
    let mut i: usize = 0;
    while i < count
        invariant
            p.accepted(),
            b == p.buffer@,
            count as nat == spec_count(b),
            blen == b.len(),
            4 + count * 268 <= blen,
            i <= count,
            spec_find_stats(b, index, 0) == spec_find_stats(b, index, i as nat),
            forall|j: int| 0 <= j < i ==> #[trigger] rec_index(b, j) != index,
        decreases count - i,
    {
        proof {
            lemma_mul_inequality(i as int, count as int, 268);
            lemma_mul_inequality(i as int + 1, count as int, 268);
            assert(4 + (i as int) * 268 + 268 <= b.len());
        }
        let base: usize = 4 + i * 268;
        let idx = u32_from_le_bytes(slice_subrange(p.buffer.as_slice(), base, base + 4));
        if idx == index {
            let bytes_in = u32_from_le_bytes(
                slice_subrange(p.buffer.as_slice(), base + 260, base + 264),
            );
            let bytes_out = u32_from_le_bytes(
                slice_subrange(p.buffer.as_slice(), base + 264, base + 268),
            );
            proof {
                assert(spec_find_stats(b, index, i as nat) == Option::Some(
                    (rec_in(b, i as int), rec_out(b, i as int)),
                ));
            }
            return Option::Some((bytes_in, bytes_out));
        }
        proof {
            assert(spec_find_stats(b, index, i as nat) == spec_find_stats(b, index, i as nat + 1));
        }
        i = i + 1;
    }
    proof {
        assert(spec_find_stats(b, index, count as nat) is None);
    }
    Option::None
}

/// The display string of the singleton network probe: the traffic counters of
/// the first record of an accepted, non-empty table, else the sentinel.
pub open spec fn spec_network_stats_string(p: TableProbe) -> Seq<char> {
    if p.accepted() && spec_count(p.buffer@) > 0 {
        spec_dec(rec_in(p.buffer@, 0) as nat) + (" bytes in / ")@ + spec_dec(
            rec_out(p.buffer@, 0) as nat,
        ) + (" bytes out")@
    } else {
        ("Unavailable")@
    }
}

/// Renders the traffic counters of the first interface of the table, or the
/// unavailable sentinel when the exchange was rejected or the table is empty.
pub fn get_network_stats(p: &TableProbe) -> (s: String)
    ensures
        s@ == spec_network_stats_string(*p),
{
    let count: u32 = match validate_table(p) {
        Option::Some(c) => c,
        Option::None => {
            return String::from_str("Unavailable");
        },
    };
    if count == 0 {
        return String::from_str("Unavailable");
    }
    proof {
        lemma_mul_inequality(1, spec_count(p.buffer@) as int, 268);
    }
    let bytes_in = u32_from_le_bytes(slice_subrange(p.buffer.as_slice(), 264, 268));
    let bytes_out = u32_from_le_bytes(slice_subrange(p.buffer.as_slice(), 268, 272));
    let mut s = dec_string(bytes_in as u64);
    s.append(" bytes in / ");
    let t = dec_string(bytes_out as u64);
    s.append(t.as_str());
    s.append(" bytes out");
    proof {
        assert(s@ =~= spec_network_stats_string(*p));
    }
    s
}

} // verus!
