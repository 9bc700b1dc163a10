use std::io::Read;
use wrtcli::archive::{encode_archive, is_plain_entry_path, ArchiveEntry, ArchiveError};
use wrtcli::collect::{CollectStep, Collector, CommandOutcome, Progress, SectionStatus};

fn unpack(bytes: &[u8]) -> Vec<(String, u32, u64, Vec<u8>)> {
    let mut archive = tar::Archive::new(flate2::read::GzDecoder::new(bytes));
    let mut out = Vec::new();
    for entry in archive.entries().unwrap() {
        let mut entry = entry.unwrap();
        let path = entry.path().unwrap().to_string_lossy().into_owned();
        let mode = entry.header().mode().unwrap();
        let size = entry.header().size().unwrap();
        let mut data = Vec::new();
        entry.read_to_end(&mut data).unwrap();
        out.push((path, mode, size, data));
    }
    out
}

fn printed(output: &str) -> CommandOutcome {
    CommandOutcome::Finished { exit_status: 0, output: output.to_string() }
}

fn failed(exit_status: i32, output: &str) -> CommandOutcome {
    CommandOutcome::Finished { exit_status, output: output.to_string() }
}

struct Run {
    commands: Vec<String>,
    statuses: Vec<SectionStatus>,
    steps: Vec<usize>,
    archive: Result<Vec<u8>, ArchiveError>,
}

fn run(outcomes: Vec<CommandOutcome>) -> Run {
    let (mut collector, first) = Collector::begin();
    let mut commands = vec![first];
    let mut statuses = Vec::new();
    let mut steps = Vec::new();
    let mut outcomes = outcomes.into_iter();
    loop {
        assert_eq!(collector.step(), steps.len());
        let Progress { step, status, next } = collector.advance(outcomes.next().unwrap());
        steps.push(step);
        statuses.push(status);
        match next {
            CollectStep::Run { collector: c, command } => {
                collector = c;
                commands.push(command);
            }
            CollectStep::Done { archive } => {
                assert!(outcomes.next().is_none());
                return Run { commands, statuses, steps, archive };
            }
        }
    }
}

#[test]
fn commands_come_in_the_fixed_order() {
    let r = run(vec![
        printed("a"),
        printed("b"),
        printed("c"),
        printed("d"),
        printed("e"),
        printed("f"),
    ]);
    assert_eq!(
        r.commands,
        vec![
            "cat /etc/config/system".to_string(),
            "cat /etc/config/wireless".to_string(),
            "cat /etc/config/network".to_string(),
            "cat /etc/config/dhcp".to_string(),
            "cat /etc/config/firewall".to_string(),
            "cat /etc/board.json".to_string(),
        ]
    );
    assert_eq!(r.steps, vec![0, 1, 2, 3, 4, 5]);
    assert_eq!(r.statuses, vec![SectionStatus::BackedUp; 6]);
}

#[test]
fn every_captured_section_becomes_an_entry() {
    let r = run(vec![
        printed("config system\n"),
        printed("config wifi-device\n"),
        printed("config interface\n"),
        printed("config dnsmasq\n"),
        printed("config defaults\n"),
        printed("{\"model\":{\"id\":\"x\"}}"),
    ]);
    let entries = unpack(&r.archive.unwrap());
    assert_eq!(
        entries,
        vec![
            ("etc/config/system".to_string(), 0o644, 14, b"config system\n".to_vec()),
            ("etc/config/wireless".to_string(), 0o644, 19, b"config wifi-device\n".to_vec()),
            ("etc/config/network".to_string(), 0o644, 17, b"config interface\n".to_vec()),
            ("etc/config/dhcp".to_string(), 0o644, 15, b"config dnsmasq\n".to_vec()),
            ("etc/config/firewall".to_string(), 0o644, 16, b"config defaults\n".to_vec()),
            ("system_info.json".to_string(), 0o644, 20, b"{\"model\":{\"id\":\"x\"}}".to_vec()),
        ]
    );
}

#[test]
fn collect_with_network_and_firewall_only() {
    let r = run(vec![
        printed(""),
        printed(""),
        printed("config interface 'lan'\n"),
        printed(""),
        printed("config rule\n"),
        printed("{\"board\":1}"),
    ]);
    assert_eq!(
        r.statuses,
        vec![
            SectionStatus::Unreadable,
            SectionStatus::Unreadable,
            SectionStatus::BackedUp,
            SectionStatus::Unreadable,
            SectionStatus::BackedUp,
            SectionStatus::BackedUp,
        ]
    );
    let entries = unpack(&r.archive.unwrap());
    assert_eq!(entries.len(), 3);
    assert_eq!(entries[0].0, "etc/config/network");
    assert_eq!(entries[0].3, b"config interface 'lan'\n".to_vec());
    assert_eq!(entries[1].0, "etc/config/firewall");
    assert_eq!(entries[1].3, b"config rule\n".to_vec());
    assert_eq!(entries[2].0, "system_info.json");
    assert_eq!(entries[2].3, b"{\"board\":1}".to_vec());
}

#[test]
fn collect_with_network_and_firewall_only_and_no_identity() {
    let r = run(vec![
        printed(""),
        printed(""),
        printed("config interface 'lan'\n"),
        printed(""),
        printed("config rule\n"),
        failed(1, "cat: can't open '/etc/board.json'"),
    ]);
    let entries = unpack(&r.archive.unwrap());
    assert_eq!(entries.len(), 2);
    assert_eq!(entries[0].0, "etc/config/network");
    assert_eq!(entries[1].0, "etc/config/firewall");
}

#[test]
fn all_sections_failing_gives_an_archive_without_entries() {
    let r = run(vec![
        failed(1, ""),
        failed(127, "not found"),
        printed(""),
        CommandOutcome::Unavailable,
        failed(-1, "x"),
        failed(1, ""),
    ]);
    assert_eq!(
        r.statuses,
        vec![
            SectionStatus::Unreadable,
            SectionStatus::Unreadable,
            SectionStatus::Unreadable,
            SectionStatus::Skipped,
            SectionStatus::Unreadable,
            SectionStatus::Unreadable,
        ]
    );
    let bytes = r.archive.unwrap();
    assert!(!bytes.is_empty());
    assert_eq!(unpack(&bytes), vec![]);
}

#[test]
fn all_sections_failing_may_leave_the_identity_entry() {
    let r = run(vec![
        failed(1, ""),
        failed(1, ""),
        failed(1, ""),
        failed(1, ""),
        failed(1, ""),
        printed("{}"),
    ]);
    let entries = unpack(&r.archive.unwrap());
    assert_eq!(
        entries,
        vec![("system_info.json".to_string(), 0o644, 2, b"{}".to_vec())]
    );
}

#[test]
fn output_is_stored_as_utf8() {
    let r = run(vec![
        printed("option name 'caf\u{e9}'\n"),
        CommandOutcome::Unavailable,
        CommandOutcome::Unavailable,
        CommandOutcome::Unavailable,
        CommandOutcome::Unavailable,
        CommandOutcome::Unavailable,
    ]);
    assert_eq!(r.statuses[0], SectionStatus::BackedUp);
    assert_eq!(r.statuses[1..], vec![SectionStatus::Skipped; 5]);
    let entries = unpack(&r.archive.unwrap());
    assert_eq!(entries.len(), 1);
    assert_eq!(entries[0].3, "option name 'caf\u{e9}'\n".as_bytes().to_vec());
    assert_eq!(entries[0].2, 20);
}

#[test]
fn archive_of_given_entries_can_be_read_back() {
    let entries = vec![
        ArchiveEntry { path: "a.txt".to_string(), mode: 0o600, data: b"hello".to_vec() },
        ArchiveEntry { path: "dir/b_2.bin".to_string(), mode: 0o755, data: vec![0, 255, 7] },
        ArchiveEntry { path: "empty".to_string(), mode: 0, data: vec![] },
    ];
    let bytes = encode_archive(&entries).unwrap();
    assert_eq!(&bytes[..2], &[0x1f, 0x8b]);
    assert_eq!(
        unpack(&bytes),
        vec![
            ("a.txt".to_string(), 0o600, 5, b"hello".to_vec()),
            ("dir/b_2.bin".to_string(), 0o755, 3, vec![0, 255, 7]),
            ("empty".to_string(), 0, 0, vec![]),
        ]
    );
}

#[test]
fn archive_of_no_entries_is_a_valid_archive() {
    let bytes = encode_archive(&vec![]).unwrap();
    assert!(!bytes.is_empty());
    assert_eq!(unpack(&bytes), vec![]);
}

#[test]
fn archive_is_a_function_of_its_entries() {
    let make = || {
        vec![
            ArchiveEntry { path: "etc/config/network".to_string(), mode: 0o644, data: b"x".to_vec() },
            ArchiveEntry { path: "system_info.json".to_string(), mode: 0o644, data: b"{}".to_vec() },
        ]
    };
    assert_eq!(encode_archive(&make()).unwrap(), encode_archive(&make()).unwrap());
}

#[test]
fn entry_that_cannot_be_stored_is_refused_with_its_position() {
    let entries = vec![
        ArchiveEntry { path: "fine".to_string(), mode: 0o644, data: vec![] },
        ArchiveEntry { path: "../escape".to_string(), mode: 0o644, data: vec![] },
        ArchiveEntry { path: "/absolute".to_string(), mode: 0o644, data: vec![] },
    ];
    assert!(matches!(
        encode_archive(&entries),
        Err(ArchiveError::UnsupportedEntry { index: 1 })
    ));
    let entries = vec![ArchiveEntry { path: "fine".to_string(), mode: 0o10000, data: vec![] }];
    assert!(matches!(
        encode_archive(&entries),
        Err(ArchiveError::UnsupportedEntry { index: 0 })
    ));
    let entries = vec![ArchiveEntry { path: "fine".to_string(), mode: 0o7777, data: vec![] }];
    assert_eq!(unpack(&encode_archive(&entries).unwrap())[0].1, 0o7777);
}

#[test]
fn plain_paths() {
    assert!(is_plain_entry_path("etc/config/system"));
    assert!(is_plain_entry_path("system_info.json"));
    assert!(is_plain_entry_path("a"));
    assert!(is_plain_entry_path("A_1.b/c"));
    assert!(is_plain_entry_path(&"a".repeat(99)));
    assert!(!is_plain_entry_path(&"a".repeat(100)));
    assert!(!is_plain_entry_path(""));
    assert!(!is_plain_entry_path("/etc"));
    assert!(!is_plain_entry_path("etc/"));
    assert!(!is_plain_entry_path("a//b"));
    assert!(!is_plain_entry_path("./a"));
    assert!(!is_plain_entry_path("a/../b"));
    assert!(!is_plain_entry_path(".."));
    assert!(!is_plain_entry_path("."));
    assert!(!is_plain_entry_path(".hidden"));
    assert!(!is_plain_entry_path("a."));
    assert!(!is_plain_entry_path("a b"));
    assert!(!is_plain_entry_path("a\\b"));
    assert!(!is_plain_entry_path("c:x"));
    assert!(!is_plain_entry_path("caf\u{e9}"));
    assert!(!is_plain_entry_path("a\0b"));
    assert!(!is_plain_entry_path("a-b"));
}
