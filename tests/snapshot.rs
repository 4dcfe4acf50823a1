use fitgirl_ecoqos::platform::{ecoqos_support, Support};
use fitgirl_ecoqos::snapshot::{name_len, owned_by, SnapshotCall, SnapshotWalk, Thread};

#[test]
fn name_ends_at_first_nul() {
    let mut buf = [0u16; 8];
    for (i, c) in "rz.exe".encode_utf16().enumerate() {
        buf[i] = c;
    }
    assert_eq!(name_len(&buf), 6);
    assert_eq!(name_len(&[0u16, 65, 0]), 0);
    assert_eq!(name_len(&[65u16, 66, 67]), 3);
    assert_eq!(name_len(&[]), 0);
}

#[test]
fn walk_reads_first_then_next_until_empty() {
    let mut w = SnapshotWalk::new();
    assert_eq!(w.next_call(), Some(SnapshotCall::First));
    w.record(true);
    assert_eq!(w.next_call(), Some(SnapshotCall::Next));
    w.record(true);
    assert_eq!(w.next_call(), Some(SnapshotCall::Next));
    w.record(false);
    assert_eq!(w.next_call(), None);
    w.record(true);
    assert_eq!(w.next_call(), None);
}

#[test]
fn walk_of_empty_snapshot() {
    let mut w = SnapshotWalk::new();
    w.record(false);
    assert_eq!(w.next_call(), None);
}

#[test]
fn thread_owner() {
    let t = Thread { thread_id: 8, owner_process_id: 100 };
    assert!(owned_by(&t, 100));
    assert!(!owned_by(&t, 101));
}

#[test]
fn os_builds() {
    assert_eq!(ecoqos_support(19045), Support::Unsupported);
    assert_eq!(ecoqos_support(21358), Support::Unsupported);
    assert_eq!(ecoqos_support(21359), Support::Partial);
    assert_eq!(ecoqos_support(22000), Support::Partial);
    assert_eq!(ecoqos_support(22621), Support::Full);
    assert_eq!(ecoqos_support(26100), Support::Full);
}
