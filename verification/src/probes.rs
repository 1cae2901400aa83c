use vstd::prelude::*;

use crate::convert::{dec_string, gb_from_bytes, mb_from_bytes, spec_dec};

verus! {

/// The outcome of the physical-memory probe: either both totals in whole
/// mebibytes, or the unavailable sentinel.
#[derive(Debug, PartialEq, Eq, Structural)]
pub enum MemoryReport {
    Available { total_mb: u64, used_mb: u64 },
    Unavailable,
}

impl MemoryReport {
    /// A well-formed report never shows more memory used than the host has.
    pub open spec fn wf(self) -> bool {
        match self {
            MemoryReport::Available { total_mb, used_mb } => used_mb <= total_mb,
            MemoryReport::Unavailable => true,
        }
    }
}

/// The report derived from a raw memory query: `status` is the total and the
/// available physical memory in bytes, or `None` when the query failed. Both
/// counts are truncated to mebibytes and `used = total - available`. A reading
/// whose available memory exceeds its total would make `used` negative; it is
/// treated as probe corruption and collapses to the sentinel.
pub open spec fn spec_memory_report(status: Option<(u64, u64)>) -> MemoryReport {
    match status {
        Option::None => MemoryReport::Unavailable,
        Option::Some((total, avail)) => {
            let total_mb = total / 1048576;
            let avail_mb = avail / 1048576;
            if avail_mb <= total_mb {
                MemoryReport::Available {
                    total_mb: total_mb as u64,
                    used_mb: (total_mb - avail_mb) as u64,
                }
            } else {
                MemoryReport::Unavailable
            }
        },
    }
}

/// Builds the memory report from a raw query result.
pub fn memory_report(status: Option<(u64, u64)>) -> (r: MemoryReport)
    ensures
        r == spec_memory_report(status),
        r.wf(),
{
    match status {
        Option::None => MemoryReport::Unavailable,
        Option::Some((total, avail)) => {
            let total_mb = mb_from_bytes(total);
            let avail_mb = mb_from_bytes(avail);
            if avail_mb <= total_mb {
                MemoryReport::Available { total_mb, used_mb: total_mb - avail_mb }
            } else {
                MemoryReport::Unavailable
            }
        },
    }
}

/// Any query that reports no more available than total memory yields an
/// available report whose used count is exactly the difference of the
/// truncated totals, and never exceeds the total.
pub proof fn lemma_memory_used_bounded(total: u64, avail: u64)
    requires
        avail <= total,
    ensures
        spec_memory_report(Option::Some((total, avail))) == (MemoryReport::Available {
            total_mb: (total / 1048576) as u64,
            used_mb: (total / 1048576 - avail / 1048576) as u64,
        }),
        (total / 1048576 - avail / 1048576) as u64 <= total / 1048576,
{
    vstd::arithmetic::div_mod::lemma_div_is_ordered(avail as int, total as int, 1048576);
}

/// The display string for a memory report.
pub open spec fn spec_memory_string(r: MemoryReport) -> Seq<char> {
    match r {
        MemoryReport::Available { total_mb, used_mb } => spec_dec(used_mb as nat) + (" MB used / ")@
            + spec_dec(total_mb as nat) + (" MB total")@,
        MemoryReport::Unavailable => ("Unavailable")@,
    }
}

/// Renders a memory report for display.
pub fn format_memory(r: &MemoryReport) -> (s: String)
    ensures
        s@ == spec_memory_string(*r),
{
    match r {
        MemoryReport::Available { total_mb, used_mb } => {
            let mut s = dec_string(*used_mb);
            s.append(" MB used / ");
            let t = dec_string(*total_mb);
            s.append(t.as_str());
            s.append(" MB total");
            proof {
                assert(s@ =~= spec_memory_string(*r));
            }
            s
        },
        MemoryReport::Unavailable => String::from_str("Unavailable"),
    }
}

/// The memory probe's display string for a raw query result.
pub fn get_memory_info(status: Option<(u64, u64)>) -> (s: String)
    ensures
        s@ == spec_memory_string(spec_memory_report(status)),
{
    let r = memory_report(status);
    format_memory(&r)
}

/// The display string for a CPU clock-speed reading in MHz, or the sentinel
/// when the configuration value was absent.
pub open spec fn spec_cpu_string(mhz: Option<u32>) -> Seq<char> {
    match mhz {
        Option::Some(n) => spec_dec(n as nat) + (" MHz")@,
        Option::None => ("Unavailable")@,
    }
}

/// The CPU-speed probe's display string for a raw configuration reading.
pub fn get_cpu_speed(mhz: Option<u32>) -> (s: String)
    ensures
        s@ == spec_cpu_string(mhz),
{
    match mhz {
        Option::Some(n) => {
            let mut s = dec_string(n as u64);
            s.append(" MHz");
            proof {
                assert(s@ =~= spec_cpu_string(mhz));
            }
            s
        },
        Option::None => String::from_str("Unavailable"),
    }
}

/// The display string for a disk-usage reading: used and total volume bytes,
/// each truncated to gibibytes, or the sentinel when the query failed.
pub open spec fn spec_disk_string(usage: Option<(u64, u64)>) -> Seq<char> {
    match usage {
        Option::Some((used, total)) => spec_dec((used / 1073741824) as nat) + (" GB used / ")@
            + spec_dec((total / 1073741824) as nat) + (" GB total")@,
        Option::None => ("Unavailable")@,
    }
}

/// The disk-space probe's display string for a raw volume query: used and
/// total bytes across mounted volumes.
pub fn get_disk_space(usage: Option<(u64, u64)>) -> (s: String)
    ensures
        s@ == spec_disk_string(usage),
{
    match usage {
        Option::Some((used, total)) => {
            let mut s = dec_string(gb_from_bytes(used));
            s.append(" GB used / ");
            let t = dec_string(gb_from_bytes(total));
            s.append(t.as_str());
            s.append(" GB total");
            proof {
                assert(s@ =~= spec_disk_string(usage));
            }
            s
        },
        Option::None => String::from_str("Unavailable"),
    }
}

} // verus!
