use host_telemetry::iftable::{TableProbe, STATUS_BUFFER_TOO_SMALL, STATUS_OK};
use host_telemetry::probes::{format_memory, get_cpu_speed, MemoryReport};
use host_telemetry::snapshot::{build_snapshot, HostReadings};

fn record(index: u32, name: &[u8], bytes_in: u32, bytes_out: u32) -> Vec<u8> {
    let mut r = Vec::new();
    r.extend_from_slice(&index.to_le_bytes());
    let mut name_field = [0u8; 256];
    name_field[..name.len()].copy_from_slice(name);
    r.extend_from_slice(&name_field);
    r.extend_from_slice(&bytes_in.to_le_bytes());
    r.extend_from_slice(&bytes_out.to_le_bytes());
    r
}

fn table(records: &[Vec<u8>]) -> Vec<u8> {
    let mut b = (records.len() as u32).to_le_bytes().to_vec();
    for r in records {
        b.extend_from_slice(r);
    }
    b
}

fn good_probe(buffer: Vec<u8>) -> TableProbe {
    TableProbe { first_status: STATUS_BUFFER_TOO_SMALL, second_status: STATUS_OK, buffer }
}

fn rejected_probe() -> TableProbe {
    TableProbe { first_status: STATUS_OK, second_status: STATUS_OK, buffer: Vec::new() }
}

#[test]
fn snapshot_with_every_probe_available() {
    let readings = HostReadings {
        uptime_ms: 3_661_000,
        memory: Some((8_589_934_592, 2_147_483_648)),
        cpu_mhz: Some(3000),
        disk: Some((107_374_182_400, 536_870_912_000)),
        interfaces: good_probe(table(&[
            record(1, b"eth0", 10, 20),
            record(5, b"eth1", 30, 40),
        ])),
        stats: good_probe(table(&[
            record(1, b"eth0", 11, 21),
            record(5, b"eth1", 31, 41),
        ])),
    };
    let s = build_snapshot(&readings);
    assert_eq!(s.uptime, "01h:01m");
    assert_eq!(s.memory, MemoryReport::Available { total_mb: 8192, used_mb: 6144 });
    assert_eq!(s.cpu_speed_mhz, Some(3000));
    assert_eq!(get_cpu_speed(s.cpu_speed_mhz), "3000 MHz");
    assert_eq!(s.disk_space, "100 GB used / 500 GB total");
    assert_eq!(s.interfaces.len(), 2);
    assert_eq!(s.interfaces[0].index, 1);
    assert_eq!(s.interfaces[0].name, "eth0");
    // Counters come from the fresh stats exchange, not the discovery one.
    assert_eq!(s.interfaces[0].bytes_in, 11);
    assert_eq!(s.interfaces[0].bytes_out, 21);
    assert_eq!(s.interfaces[1].index, 5);
    assert_eq!(s.interfaces[1].bytes_in, 31);
    assert_eq!(s.interfaces[1].bytes_out, 41);
}

#[test]
fn snapshot_interface_gone_between_calls_gets_zero_stats() {
    // The interface with index 5 vanished between the discovery exchange and
    // the stats exchange: its entry stays, with zero counters.
    let readings = HostReadings {
        uptime_ms: 0,
        memory: None,
        cpu_mhz: None,
        disk: None,
        interfaces: good_probe(table(&[
            record(1, b"eth0", 10, 20),
            record(5, b"eth1", 30, 40),
        ])),
        stats: good_probe(table(&[record(1, b"eth0", 11, 21)])),
    };
    let s = build_snapshot(&readings);
    assert_eq!(s.interfaces.len(), 2);
    assert_eq!(s.interfaces[1].index, 5);
    assert_eq!(s.interfaces[1].name, "eth1");
    assert_eq!(s.interfaces[1].bytes_in, 0);
    assert_eq!(s.interfaces[1].bytes_out, 0);
}

#[test]
fn snapshot_with_every_probe_unavailable_still_builds() {
    // One failing subsystem never takes down the report: every metric
    // degrades to its own placeholder and the snapshot is still produced.
    let readings = HostReadings {
        uptime_ms: 0,
        memory: None,
        cpu_mhz: None,
        disk: None,
        interfaces: rejected_probe(),
        stats: rejected_probe(),
    };
    let s = build_snapshot(&readings);
    assert_eq!(s.uptime, "00h:00m");
    assert_eq!(s.memory, MemoryReport::Unavailable);
    assert_eq!(format_memory(&s.memory), "Unavailable");
    assert_eq!(s.cpu_speed_mhz, None);
    assert_eq!(get_cpu_speed(s.cpu_speed_mhz), "Unavailable");
    assert_eq!(s.disk_space, "Unavailable");
    assert_eq!(s.interfaces.len(), 0);
}

#[test]
fn snapshot_one_failing_probe_leaves_others_intact() {
    let readings = HostReadings {
        uptime_ms: 60_000,
        memory: None,
        cpu_mhz: Some(2100),
        disk: Some((0, 1_073_741_824)),
        interfaces: good_probe(table(&[record(9, b"wlan0", 1, 2)])),
        stats: good_probe(table(&[record(9, b"wlan0", 1, 2)])),
    };
    let s = build_snapshot(&readings);
    assert_eq!(s.uptime, "00h:01m");
    assert_eq!(s.memory, MemoryReport::Unavailable);
    assert_eq!(s.cpu_speed_mhz, Some(2100));
    assert_eq!(s.disk_space, "0 GB used / 1 GB total");
    assert_eq!(s.interfaces.len(), 1);
    assert_eq!(s.interfaces[0].name, "wlan0");
}
