use bryggio::db_writer::{to_stored_time, DbWriter, SnapshotAction};
use bryggio::state::BrewPhase;

#[test]
fn brew_lifecycle() {
    let mut w: DbWriter<&str> = DbWriter::new();
    assert_eq!(w.announce(BrewPhase::Idle, 10), SnapshotAction::Nothing);
    w.record("idle");
    assert!(!w.needs_flush());

    assert_eq!(
        w.announce(BrewPhase::Mashing, 20),
        SnapshotAction::CreateBrew { started_at: 20 }
    );
    w.brew_created(Some(7));
    w.record("mash1");
    assert_eq!(w.announce(BrewPhase::Boiling, 30), SnapshotAction::Nothing);
    w.record("boil1");
    assert_eq!(w.pending(), &vec![(7, "mash1"), (7, "boil1")]);

    assert_eq!(
        w.announce(BrewPhase::Done, 40),
        SnapshotAction::EndBrew { brew_id: Some(7), ended_at: 40 }
    );
    w.flushed(true);
    w.record("done");
    assert!(!w.needs_flush());
    assert_eq!(w.current_brew_id(), None);
}

#[test]
fn failed_creation_records_nothing() {
    let mut w: DbWriter<u32> = DbWriter::new();
    assert!(matches!(w.announce(BrewPhase::Prep, 5), SnapshotAction::CreateBrew { .. }));
    w.brew_created(None);
    w.record(1);
    assert!(!w.needs_flush());
    assert_eq!(
        w.announce(BrewPhase::Idle, 6),
        SnapshotAction::EndBrew { brew_id: None, ended_at: 6 }
    );
}

#[test]
fn failed_flush_keeps_buffer() {
    let mut w: DbWriter<u32> = DbWriter::new();
    w.announce(BrewPhase::Mashing, 1);
    w.brew_created(Some(1));
    w.record(10);
    w.flushed(false);
    assert_eq!(w.pending(), &vec![(1, 10)]);
    w.flushed(true);
    assert!(w.pending().is_empty());
}

#[test]
fn stored_time_of_huge_stamp_is_zero() {
    assert_eq!(to_stored_time(12), 12);
    assert_eq!(to_stored_time(i64::MAX as u64), i64::MAX);
    assert_eq!(to_stored_time(u64::MAX), 0);
}
