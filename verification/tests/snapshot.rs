use system_info::disk::{trim_mount, DiskDetail, DiskReading};
use system_info::memory::MemoryInfo;
use system_info::network::{
    active_network, find_active_network, is_loopback, ActiveNetwork, Interface,
};
use system_info::process::{children, has_process, roots, run_time, ProcessEntry};
use system_info::SystemInfo;

const MB: u64 = 1024 * 1024;
const GB: u64 = 1024 * MB;

#[test]
fn test_memory_info() {
    let memory_info = SystemInfo::memory(16 * GB, 6 * GB, 2 * GB, 512 * MB);

    assert!(memory_info.total > 0);
    assert!(memory_info.used > 0);
    assert!(memory_info.free > 0);
    assert_eq!(memory_info.total, 16_384);
    assert_eq!(memory_info.used, 6_144);
    assert_eq!(memory_info.free, 10_240);
    assert_eq!(memory_info.swap_total, Some(2_048));
    assert_eq!(memory_info.swap_used, Some(512));
    assert_eq!(memory_info.swap_free, Some(1_536));
}

#[test]
fn memory_drops_the_part_of_a_megabyte() {
    let info = MemoryInfo::new(3 * MB - 1, 2 * MB - 1, 0, 0);
    assert_eq!(info.total, 2);
    assert_eq!(info.used, 1);
    assert_eq!(info.free, 1);
}

#[test]
fn memory_without_swap_has_no_swap_figures() {
    for (swap_total, swap_used) in [(0, 0), (MB - 1, 0), (MB - 1, 5 * MB)] {
        let info = MemoryInfo::new(GB, MB, swap_total, swap_used);
        assert_eq!(info.swap_total, None);
        assert_eq!(info.swap_used, None);
        assert_eq!(info.swap_free, None);
    }
    let info = MemoryInfo::new(GB, MB, MB, 0);
    assert_eq!(info.swap_total, Some(1));
    assert_eq!(info.swap_used, Some(0));
    assert_eq!(info.swap_free, Some(1));
}

#[test]
fn memory_in_use_beyond_the_total_leaves_nothing_free() {
    let info = MemoryInfo::new(GB, 2 * GB, GB, 3 * GB);
    assert_eq!(info.total, 1_024);
    assert_eq!(info.used, 2_048);
    assert_eq!(info.free, 0);
    assert_eq!(info.swap_used, Some(3_072));
    assert_eq!(info.swap_free, Some(0));
    let all = MemoryInfo::new(u64::MAX, 0, u64::MAX, u64::MAX);
    assert_eq!(all.total, 17_592_186_044_415);
    assert_eq!(all.free, 17_592_186_044_415);
    assert_eq!(all.swap_free, Some(0));
}

fn reading(name: &str, mount: &str, total: u64, available: u64) -> DiskReading {
    DiskReading {
        name: name.to_string(),
        mount_point: mount.to_string(),
        total_space: total,
        available_space: available,
    }
}

#[test]
fn test_disk_info() {
    let disk_info = SystemInfo::disk(&vec![
        reading("/dev/sda1", "/", 500 * GB, 120 * GB),
        reading("/dev/sdb1", "/data", 2000 * GB, 1500 * GB),
    ]);

    assert!(disk_info.total_space > 0);
    assert!(disk_info.total_used_space > 0);
    assert!(disk_info.total_free_space > 0);
    assert_eq!(disk_info.total_space, 2_500);
    assert_eq!(disk_info.total_used_space, 880);
    assert_eq!(disk_info.total_free_space, 1_620);
    assert_eq!(disk_info.total_usage, 0);

    for disk in &disk_info.disks {
        assert!(!disk.name.is_empty());
        assert!(disk.total_space > 0);
        assert!(disk.used_space > 0);
        assert!(disk.free_space > 0);
        assert!(disk.used_space <= disk.total_space);
    }
    assert_eq!(
        disk_info.disks,
        vec![
            DiskDetail {
                name: "/dev/sda1".to_string(),
                mount: "/".to_string(),
                total_space: 500,
                used_space: 380,
                free_space: 120,
            },
            DiskDetail {
                name: "/dev/sdb1".to_string(),
                mount: "/data".to_string(),
                total_space: 2_000,
                used_space: 500,
                free_space: 1_500,
            },
        ]
    );
}

#[test]
fn disk_space_is_converted_before_it_is_subtracted() {
    // 2.9 GB with 1.1 GB available: 2 whole gigabytes less 1.
    let detail = DiskDetail::new(&reading("disk", "/", 29 * GB / 10, 11 * GB / 10));
    assert_eq!(detail.total_space, 2);
    assert_eq!(detail.free_space, 1);
    assert_eq!(detail.used_space, 1);
}

#[test]
fn disk_with_more_available_than_there_is_has_nothing_in_use() {
    let detail = DiskDetail::new(&reading("disk", "/", GB, 5 * GB));
    assert_eq!(detail.total_space, 1);
    assert_eq!(detail.free_space, 5);
    assert_eq!(detail.used_space, 0);
}

#[test]
fn mount_point_loses_its_trailing_backslashes() {
    assert_eq!(trim_mount("C:\\"), "C:");
    assert_eq!(trim_mount("C:\\\\\\"), "C:");
    assert_eq!(trim_mount("C:\\data\\"), "C:\\data");
    assert_eq!(trim_mount("\\"), "");
    assert_eq!(trim_mount(""), "");
    assert_eq!(trim_mount("/mnt/data/"), "/mnt/data/");
    assert_eq!(trim_mount("\\\\server\\share"), "\\\\server\\share");
    assert_eq!(trim_mount("D\u{e4}ten\\"), "D\u{e4}ten");
}

#[test]
fn disk_usage_counts_whole_multiples() {
    let full = SystemInfo::disk(&vec![reading("a", "/", 10 * GB, 0), reading("b", "/b", GB, 0)]);
    assert_eq!(full.total_space, 11);
    assert_eq!(full.total_used_space, 11);
    assert_eq!(full.total_free_space, 0);
    assert_eq!(full.total_usage, 100);

    let nearly = SystemInfo::disk(&vec![reading("a", "/", 10 * GB, GB)]);
    assert_eq!(nearly.total_usage, 0);

    let none = SystemInfo::disk(&vec![]);
    assert_eq!(none.total_space, 0);
    assert_eq!(none.total_usage, 0);
    assert!(none.disks.is_empty());

    let tiny = SystemInfo::disk(&vec![reading("a", "/", GB - 1, 0)]);
    assert_eq!(tiny.total_space, 0);
    assert_eq!(tiny.total_usage, 0);
}

#[test]
fn disk_totals_stop_at_the_largest_number() {
    let huge = reading("huge", "/", u64::MAX, 0);
    let detail = DiskDetail::new(&huge);
    assert_eq!(detail.total_space, 17_179_869_183);
    let info = SystemInfo::disk(&vec![huge.clone(), huge]);
    assert_eq!(info.total_space, 34_359_738_366);
}

fn interface(name: &str, has_ipv4: bool, received: u64, transmitted: u64) -> Interface {
    Interface { name: name.to_string(), has_ipv4, received, transmitted }
}

#[test]
fn loopback_is_known_by_its_name() {
    assert!(is_loopback("lo"));
    assert!(is_loopback("lo0"));
    assert!(is_loopback("local"));
    assert!(is_loopback("Loopback Pseudo-Interface 1"));
    assert!(is_loopback("Software loopback"));
    assert!(is_loopback("xloopbackx"));
    assert!(!is_loopback("Lo"));
    assert!(!is_loopback("LOOPBACK"));
    assert!(!is_loopback("eth0"));
    assert!(!is_loopback("wlo1"));
    assert!(!is_loopback("My Loopback"));
    assert!(!is_loopback("l"));
    assert!(!is_loopback(""));
}

#[test]
fn interface_is_eligible_with_an_ipv4_address() {
    assert!(interface("eth0", true, 0, 0).is_eligible(false));
    assert!(!interface("eth0", true, 0, 0).is_eligible(true));
    assert!(interface("eth0", true, 1, 0).is_eligible(true));
    assert!(interface("eth0", true, 0, 1).is_eligible(true));
    assert!(interface("eth0", true, u64::MAX, u64::MAX).is_eligible(true));
    assert!(!interface("eth0", false, 5, 5).is_eligible(false));
    assert!(!interface("lo", true, 5, 5).is_eligible(false));
}

#[test]
fn busy_interface_comes_before_an_idle_one() {
    let interfaces = vec![
        interface("lo", true, 900, 900),
        interface("eth0", true, 0, 0),
        interface("tun0", false, 10, 10),
        interface("wlan0", true, 10, 0),
        interface("eth1", true, 50, 50),
    ];
    assert_eq!(find_active_network(&interfaces, true), Some(3));
    assert_eq!(find_active_network(&interfaces, false), Some(1));
    assert_eq!(active_network(&interfaces), ActiveNetwork::Busy(3));
    assert_eq!(SystemInfo::current_network(&interfaces), ActiveNetwork::Busy(3));
}

#[test]
fn idle_interface_is_taken_where_none_is_busy() {
    let interfaces = vec![
        interface("lo", true, 900, 900),
        interface("tun0", false, 10, 10),
        interface("eth0", true, 0, 0),
        interface("eth1", true, 0, 0),
    ];
    assert_eq!(find_active_network(&interfaces, true), None);
    assert_eq!(active_network(&interfaces), ActiveNetwork::Idle(2));
}

#[test]
fn no_interface_is_taken_where_none_is_eligible() {
    let interfaces = vec![interface("lo", true, 900, 900), interface("tun0", false, 10, 10)];
    assert_eq!(find_active_network(&interfaces, false), None);
    assert_eq!(active_network(&interfaces), ActiveNetwork::Unknown);
    assert_eq!(active_network(&vec![]), ActiveNetwork::Unknown);
}

fn entry(pid: u32, parent: Option<u32>) -> ProcessEntry {
    ProcessEntry { pid, parent }
}

#[test]
fn processes_without_a_listed_parent_stand_at_the_top() {
    let entries = vec![
        entry(1, None),
        entry(20, Some(1)),
        entry(21, Some(20)),
        entry(300, Some(299)),
        entry(301, Some(300)),
        entry(7, Some(7)),
        entry(0, Some(1)),
    ];
    assert_eq!(roots(&entries), vec![0, 3]);
    assert_eq!(SystemInfo::process_all(&entries), vec![0, 3]);
    assert_eq!(roots(&vec![]), Vec::<usize>::new());
    assert!(has_process(&entries, 301));
    assert!(has_process(&entries, 0));
    assert!(!has_process(&entries, 299));
}

#[test]
fn children_are_listed_in_order() {
    let entries = vec![
        entry(1, None),
        entry(20, Some(1)),
        entry(21, Some(20)),
        entry(22, Some(1)),
        entry(1, Some(1)),
    ];
    assert_eq!(children(&entries, 1), vec![1, 3, 4]);
    assert_eq!(children(&entries, 20), vec![2]);
    assert_eq!(children(&entries, 21), Vec::<usize>::new());
    assert_eq!(children(&entries, 99), Vec::<usize>::new());
}

#[test]
fn run_time_is_never_negative() {
    assert_eq!(run_time(1_700_000_100, 1_700_000_000), 100);
    assert_eq!(run_time(5, 5), 0);
    assert_eq!(run_time(5, 6), 0);
    assert_eq!(run_time(u64::MAX, 0), u64::MAX);
    assert_eq!(run_time(0, u64::MAX), 0);
}

#[test]
fn names_and_mounts_are_judged_as_std_would() {
    const PARTS: [&str; 12] =
        ["lo", "Lo", "op", "back", "Loopback", "loopback", "\\", "\\\\", "/", "e", " ", "\u{e4}"];
    let mut state: u64 = 0xd1b5_4a32_d192_ed03;
    let mut next = move |bound: usize| {
        state ^= state << 13;
        state ^= state >> 7;
        state ^= state << 17;
        (state % bound as u64) as usize
    };
    for _ in 0..5_000 {
        let mut text = String::new();
        for _ in 0..next(6) {
            text.push_str(PARTS[next(PARTS.len())]);
        }
        let loopback =
            text.starts_with("lo") || text.starts_with("Loopback") || text.contains("loopback");
        assert_eq!(is_loopback(&text), loopback, "{:?}", text);
        assert_eq!(trim_mount(&text), text.trim_end_matches('\\'), "{:?}", text);
    }
}
