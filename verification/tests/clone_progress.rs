use gittwo::clone_progress::{
    CloneProgress, TransferReport, TransferStats, FIRST_REMOTE_INDEX, RECEIVING_INDEX,
    RESOLVING_INDEX,
};
use gittwo::progress::ProgressCallbackHelper;

fn stats(received: usize, total: usize, bytes: usize, indexed: usize, deltas: usize) -> TransferStats {
    TransferStats {
        total_objects: total,
        received_objects: received,
        received_bytes: bytes,
        indexed_deltas: indexed,
        total_deltas: deltas,
    }
}

#[test]
fn a_clone_begins_with_the_first_indices() {
    let progress = CloneProgress::new();
    assert_eq!(progress.remote_index, 1);
    assert_eq!(progress.transfer_index, 100);
    assert_eq!(progress.helper, ProgressCallbackHelper::default());
    assert_eq!(FIRST_REMOTE_INDEX, 1);
    assert_eq!(RECEIVING_INDEX, 100);
    assert_eq!(RESOLVING_INDEX, 101);
}

#[test]
fn receiving_closes_exactly_once() {
    let mut progress = CloneProgress::new();
    let mut closings = 0;
    let mut lines = 0;
    // many reports within the rate limit, then the complete one several times
    let calls = [
        (stats(1, 4, 10, 0, 2), 10),
        (stats(2, 4, 20, 0, 2), 20),
        (stats(3, 4, 30, 0, 2), 150),
        (stats(4, 4, 40, 0, 2), 151),
        (stats(4, 4, 40, 0, 2), 152),
        (stats(4, 4, 40, 1, 2), 400),
        (stats(4, 4, 40, 2, 2), 401),
        (stats(4, 4, 40, 2, 2), 900),
    ];
    for (report, now) in calls {
        match progress.on_transfer(report, now) {
            TransferReport::Receiving(line) => {
                lines += 1;
                assert_eq!(line.index, 100);
                if line.done {
                    closings += 1;
                    assert_eq!(line.percent, 100);
                }
            }
            _ => {}
        }
    }
    assert_eq!(closings, 1);
    assert_eq!(lines, 2);
    assert_eq!(progress.transfer_index, 102);
}

#[test]
fn phases_follow_each_other() {
    let mut progress = CloneProgress::new();
    let report = progress.on_transfer(stats(2, 2, 2048, 0, 3), 1);
    assert!(matches!(report, TransferReport::Receiving(line) if line.done));
    assert_eq!(progress.transfer_index, 101);

    let report = progress.on_transfer(stats(2, 2, 2048, 1, 3), 50);
    assert_eq!(report, TransferReport::Nothing);
    let report = progress.on_transfer(stats(2, 2, 2048, 2, 3), 100);
    match report {
        TransferReport::Resolving(line) => {
            assert_eq!(line.index, 101);
            assert_eq!(line.percent, 66);
            assert!(!line.done);
            assert_eq!(line.render(), "Resolving deltas: 66% (2/3)");
        }
        other => panic!("unexpected {:?}", other),
    }
    let report = progress.on_transfer(stats(2, 2, 2048, 3, 3), 101);
    match report {
        TransferReport::Resolving(line) => {
            assert!(line.done);
            assert_eq!(line.render(), "Resolving deltas: 100% (3/3), done.");
        }
        other => panic!("unexpected {:?}", other),
    }
    assert_eq!(progress.transfer_index, 102);
    let before = progress;
    assert_eq!(progress.on_transfer(stats(2, 2, 2048, 3, 3), 5000), TransferReport::Nothing);
    assert_eq!(progress, before);
}

#[test]
fn resolving_without_deltas_stays_in_its_phase() {
    let mut progress = CloneProgress::new();
    progress.on_transfer(stats(1, 1, 1, 0, 0), 0);
    assert_eq!(progress.transfer_index, 101);
    assert_eq!(progress.on_transfer(stats(1, 1, 1, 0, 0), 1000), TransferReport::Nothing);
    assert_eq!(progress.transfer_index, 101);
}

#[test]
fn sideband_lines_have_their_own_index() {
    let mut progress = CloneProgress::new();
    let lines = progress.on_sideband(b"Counting objects: 3, done.\nCompressing");
    assert_eq!(lines.len(), 2);
    assert_eq!(lines[0].index, 1);
    assert_eq!(lines[0].text, "remote: Counting objects: 3, done.");
    assert_eq!(lines[1].index, 2);
    assert_eq!(lines[1].text, "remote: Compressing");
    assert_eq!(progress.remote_index, 2);
    assert_eq!(progress.transfer_index, 100);
    let lines = progress.on_sideband(b" objects: 100% (2/2), done.\n");
    assert_eq!(lines[0].index, 2);
    assert_eq!(progress.remote_index, 3);
}

#[test]
fn the_two_series_do_not_touch_each_other() {
    let mut progress = CloneProgress::new();
    progress.on_transfer(stats(1, 1, 1, 0, 1), 0);
    let helper = progress.helper;
    progress.on_sideband(b"x done.\n");
    assert_eq!(progress.transfer_index, 101);
    assert_eq!(progress.helper, helper);
    assert_eq!(progress.remote_index, 2);
}

#[test]
fn checked_entry_points_refuse_what_the_others_do_not_take() {
    let mut progress = CloneProgress::new();
    // complete with no objects at all
    assert!(!progress.accepts(stats(0, 0, 0, 0, 0), 10));
    assert_eq!(progress.checked_on_transfer(stats(0, 0, 0, 0, 0), 10), None);
    assert_eq!(progress, CloneProgress::new());
    let report = progress.checked_on_transfer(stats(1, 1, 5, 0, 0), 10);
    assert!(matches!(report, Some(TransferReport::Receiving(line)) if line.done));
    assert_eq!(progress.transfer_index, 101);

    let mut progress = CloneProgress::new();
    progress.remote_index = usize::MAX - 2;
    assert!(progress.checked_on_sideband(b"abc").is_none());
    assert_eq!(progress.remote_index, usize::MAX - 2);
    let lines = progress.checked_on_sideband(b"ab").unwrap();
    assert_eq!(lines.len(), 1);
    assert_eq!(lines[0].index, usize::MAX - 2);
}
