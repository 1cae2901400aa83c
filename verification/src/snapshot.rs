//! The telemetry snapshot builder.
//!
//! One snapshot is assembled per request from the raw readings the host
//! handed over: every probe is evaluated independently, so one unavailable
//! metric never suppresses the others. The builder holds no state between
//! calls.

use vstd::prelude::*;

use crate::convert::{format_uptime, spec_uptime};
use crate::iftable::{
    get_interface_list, lossy_decode, rec_index, rec_name, spec_count, spec_stats_for, stats_for,
    trim_nul, TableProbe,
};
use crate::probes::{
    get_disk_space, memory_report, spec_disk_string, spec_memory_report, MemoryReport,
};

verus! {

/// One discovered interface with its traffic counters. The index is
/// OS-assigned; the name may be empty where it could not be decoded; the
/// counters are zero where the per-interface lookup found nothing.
pub struct InterfaceStat {
    pub index: u32,
    pub name: String,
    pub bytes_in: u64,
    pub bytes_out: u64,
}

/// The raw, unparsed readings gathered from the host for one request: the
/// boot counter, the memory query (total and available bytes) if it
/// succeeded, the stored CPU clock speed if the configuration value was
/// present, the disk query (used and total bytes) if it succeeded, and the
/// two enumeration exchanges — one to discover the interfaces, one fresh
/// exchange for their counters.
pub struct HostReadings {
    pub uptime_ms: u64,
    pub memory: Option<(u64, u64)>,
    pub cpu_mhz: Option<u32>,
    pub disk: Option<(u64, u64)>,
    pub interfaces: TableProbe,
    pub stats: TableProbe,
}

/// The complete set of metric values for one request, immutable once built.
pub struct TelemetrySnapshot {
    pub uptime: String,
    pub memory: MemoryReport,
    pub cpu_speed_mhz: Option<u32>,
    pub disk_space: String,
    pub interfaces: Vec<InterfaceStat>,
}

/// The bytes-in counter a snapshot shows for the interface with the given
/// index: what the stats exchange answers, or zero for the not-found
/// sentinel.
pub open spec fn spec_iface_bytes_in(stats: TableProbe, index: u32) -> u64 {
    match spec_stats_for(stats, index) {
        Option::Some(p) => p.0 as u64,
        Option::None => 0,
    }
}

/// The bytes-out counter a snapshot shows for the interface with the given
/// index: what the stats exchange answers, or zero for the not-found
/// sentinel.
pub open spec fn spec_iface_bytes_out(stats: TableProbe, index: u32) -> u64 {
    match spec_stats_for(stats, index) {
        Option::Some(p) => p.1 as u64,
        Option::None => 0,
    }
}

/// Assembles the snapshot for one request. Each probe's value is computed
/// independently from its own reading; a failed query degrades that one
/// metric to its sentinel and leaves the rest intact. The interface list
/// keeps the enumeration order; each entry's counters come from a lookup in
/// the stats exchange, with zero substituted where the index is absent.
pub fn build_snapshot(r: &HostReadings) -> (s: TelemetrySnapshot)
    ensures
        s.uptime@ == spec_uptime(r.uptime_ms),
        s.memory == spec_memory_report(r.memory),
        s.memory.wf(),
        s.cpu_speed_mhz == r.cpu_mhz,
        s.disk_space@ == spec_disk_string(r.disk),
        !r.interfaces.accepted() ==> s.interfaces@.len() == 0,
        r.interfaces.accepted() ==> s.interfaces@.len() == spec_count(r.interfaces.buffer@),
        forall|i: int|
            0 <= i < s.interfaces@.len() ==> (#[trigger] s.interfaces@[i]).index == rec_index(
                r.interfaces.buffer@,
                i,
            ),
        forall|i: int|
            0 <= i < s.interfaces@.len() ==> (#[trigger] s.interfaces@[i]).name@ == lossy_decode(
                trim_nul(rec_name(r.interfaces.buffer@, i)),
            ),
        forall|i: int|
            0 <= i < s.interfaces@.len() ==> (#[trigger] s.interfaces@[i]).bytes_in
                == spec_iface_bytes_in(r.stats, rec_index(r.interfaces.buffer@, i)),
        forall|i: int|
            0 <= i < s.interfaces@.len() ==> (#[trigger] s.interfaces@[i]).bytes_out
                == spec_iface_bytes_out(r.stats, rec_index(r.interfaces.buffer@, i)),
{
    let uptime = format_uptime(r.uptime_ms);
    let memory = memory_report(r.memory);
    let disk_space = get_disk_space(r.disk);
    let pairs = get_interface_list(&r.interfaces);
    let mut interfaces: Vec<InterfaceStat> = Vec::new();
    let mut i: usize = 0;
    while i < pairs.len()
        invariant
            !r.interfaces.accepted() ==> pairs@.len() == 0,
            r.interfaces.accepted() ==> pairs@.len() == spec_count(r.interfaces.buffer@),
            forall|j: int|
                0 <= j < pairs@.len() ==> (#[trigger] pairs@[j]).0 == rec_index(
                    r.interfaces.buffer@,
                    j,
                ),
            forall|j: int|
                0 <= j < pairs@.len() ==> (#[trigger] pairs@[j]).1@ == lossy_decode(
                    trim_nul(rec_name(r.interfaces.buffer@, j)),
                ),
            i <= pairs@.len(),
            interfaces@.len() == i,
            forall|j: int|
                0 <= j < i ==> (#[trigger] interfaces@[j]).index == rec_index(
                    r.interfaces.buffer@,
                    j,
                ),
            forall|j: int|
                0 <= j < i ==> (#[trigger] interfaces@[j]).name@ == lossy_decode(
                    trim_nul(rec_name(r.interfaces.buffer@, j)),
                ),
            forall|j: int|
                0 <= j < i ==> (#[trigger] interfaces@[j]).bytes_in == spec_iface_bytes_in(
                    r.stats,
                    rec_index(r.interfaces.buffer@, j),
                ),
            forall|j: int|
                0 <= j < i ==> (#[trigger] interfaces@[j]).bytes_out == spec_iface_bytes_out(
                    r.stats,
                    rec_index(r.interfaces.buffer@, j),
                ),
        decreases pairs@.len() - i,
    {
        let pair = &pairs[i];
        let index = pair.0;
        let name = pair.1.clone();
        let (bytes_in, bytes_out) = match stats_for(&r.stats, index) {
            Option::Some(counters) => (counters.0 as u64, counters.1 as u64),
            Option::None => (0u64, 0u64),
        };
        interfaces.push(InterfaceStat { index, name, bytes_in, bytes_out });
        i = i + 1;
    }
    TelemetrySnapshot { uptime, memory, cpu_speed_mhz: r.cpu_mhz, disk_space, interfaces }
}

} // verus!
