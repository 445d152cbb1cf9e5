use gittwo::progress::{
    ProgressCallbackHelper, ReceivingReport, ReceivingUpdate, ResolvingReport, ResolvingUpdate,
};
use gittwo::units::{ByteUnit, ScaledAmount};

fn number(amount: &ScaledAmount) -> String {
    format!("{:.2}", amount.amount as f32 / amount.unit.divisor() as f32)
}

fn receiving_text(report: &ReceivingReport) -> String {
    report.render(&number(&report.size), &number(&report.speed))
}

#[test]
fn default_state_is_all_zero() {
    let helper = ProgressCallbackHelper::default();
    assert_eq!(
        helper,
        ProgressCallbackHelper {
            last_update_time: 0,
            last_throughput_update_time: 0,
            last_transfered_bytes: 0,
            previous_throughput: 0,
        }
    );
}

#[test]
fn receiving_is_held_back_within_100_ms() {
    let mut helper = ProgressCallbackHelper::default();
    let update = helper.update_receiving(1, 10, 500, 99, 100);
    assert_eq!(update, ReceivingUpdate { next_index: 100, report: None });
    assert_eq!(helper.last_update_time, 0);
}

#[test]
fn receiving_is_shown_at_100_ms() {
    let mut helper = ProgressCallbackHelper::default();
    let update = helper.update_receiving(1, 10, 500, 100, 100);
    assert_eq!(update.next_index, 100);
    let report = update.report.unwrap();
    assert_eq!(report.index, 100);
    assert_eq!(report.percent, 10);
    assert_eq!(report.received, 1);
    assert_eq!(report.total, 10);
    assert!(!report.done);
    assert_eq!(report.size, ScaledAmount { amount: 500, unit: ByteUnit::Bytes });
    assert_eq!(report.speed, ScaledAmount { amount: 0, unit: ByteUnit::Bytes });
    assert_eq!(helper.last_update_time, 100);
    assert_eq!(receiving_text(&report), "Receiving objects: 10% (1/10), 500.00 B | 0.00 B/s");
}

#[test]
fn receiving_percent_is_rounded_down() {
    let mut helper = ProgressCallbackHelper::default();
    let report = helper.update_receiving(2, 3, 0, 1000, 100).report.unwrap();
    assert_eq!(report.percent, 66);
    let mut helper = ProgressCallbackHelper::default();
    let report = helper.update_receiving(299, 300, 0, 1000, 100).report.unwrap();
    assert_eq!(report.percent, 99);
}

#[test]
fn throughput_is_bytes_since_last_sample_per_second() {
    let mut helper = ProgressCallbackHelper::default();
    let report = helper.update_receiving(1, 10, 2048, 500, 100).report.unwrap();
    // 2048 bytes in 500 ms are 4096 bytes per second
    assert_eq!(helper.previous_throughput, 4096);
    assert_eq!(helper.last_throughput_update_time, 500);
    assert_eq!(helper.last_transfered_bytes, 2048);
    assert_eq!(report.speed, ScaledAmount { amount: 4096, unit: ByteUnit::Kibi });
    assert_eq!(report.size, ScaledAmount { amount: 2048, unit: ByteUnit::Kibi });
    assert_eq!(receiving_text(&report), "Receiving objects: 10% (1/10), 2.00 Kib | 4.00 KiB/s");

    let report = helper.update_receiving(5, 10, 5120, 1500, 100).report.unwrap();
    // 3072 more bytes in 1000 ms
    assert_eq!(helper.previous_throughput, 3072);
    assert_eq!(report.speed.amount, 3072);
    assert_eq!(receiving_text(&report), "Receiving objects: 50% (5/10), 5.00 Kib | 3.00 KiB/s");
}

#[test]
fn throughput_counts_bytes_since_the_last_sample_not_the_last_line() {
    let mut helper = ProgressCallbackHelper::default();
    helper.update_receiving(1, 10, 1000, 500, 100);
    assert_eq!(helper.previous_throughput, 2000);
    // a line is shown in between, without a new sample
    let shown = helper.update_receiving(2, 10, 3000, 700, 100);
    assert!(shown.report.is_some());
    assert_eq!(helper.last_transfered_bytes, 1000);
    assert_eq!(helper.previous_throughput, 2000);
    // 4000 bytes in the 500 ms since the sample
    helper.update_receiving(3, 10, 5000, 1000, 100);
    assert_eq!(helper.previous_throughput, 8000);
    assert_eq!(helper.last_transfered_bytes, 5000);
}

#[test]
fn throughput_division_rounds_down() {
    let mut helper = ProgressCallbackHelper::default();
    helper.update_receiving(1, 10, 1000, 700, 100);
    // 1000 * 1000 / 700 = 1428.57..
    assert_eq!(helper.previous_throughput, 1428);
}

#[test]
fn throughput_is_not_measured_before_500_ms() {
    let mut helper = ProgressCallbackHelper::default();
    let report = helper.update_receiving(1, 10, 4096, 499, 100).report.unwrap();
    assert_eq!(helper.previous_throughput, 0);
    assert_eq!(helper.last_throughput_update_time, 0);
    assert_eq!(helper.last_transfered_bytes, 0);
    assert_eq!(report.speed.amount, 0);
}

#[test]
fn throughput_shown_between_samples_is_the_last_sample() {
    let mut helper = ProgressCallbackHelper::default();
    let first = helper.update_receiving(1, 10, 10_000, 500, 100).report.unwrap();
    assert_eq!(first.speed.amount, 20_000);
    // 499 ms later: far more bytes, same throughput shown
    let second = helper.update_receiving(2, 10, 9_000_000, 999, 100).report.unwrap();
    assert_eq!(second.speed, first.speed);
    assert_eq!(helper.previous_throughput, 20_000);
    assert_eq!(helper.last_throughput_update_time, 500);
    assert_eq!(number(&second.speed), number(&first.speed));
    // once 500 ms have passed since the sample it is measured anew
    let third = helper.update_receiving(3, 10, 9_000_000, 1100, 100).report.unwrap();
    assert_eq!(third.speed.amount, (9_000_000 - 10_000) * 1000 / 600);
}

#[test]
fn completion_is_shown_whatever_the_time() {
    let mut helper = ProgressCallbackHelper::default();
    // several calls held back by the rate limit
    for received in 1..10usize {
        let update = helper.update_receiving(received, 10, received * 10, 5, 100);
        assert_eq!(update, ReceivingUpdate { next_index: 100, report: None });
    }
    let update = helper.update_receiving(10, 10, 100, 5, 100);
    assert_eq!(update.next_index, 101);
    let report = update.report.unwrap();
    assert!(report.done);
    assert_eq!(report.index, 100);
    assert_eq!(report.percent, 100);
    assert_eq!(
        receiving_text(&report),
        "Receiving objects: 100% (10/10), 100.00 B | 0.00 B/s, done."
    );
    // the closing line does not count as a line shown
    assert_eq!(helper.last_update_time, 0);
}

#[test]
fn completion_measures_throughput_when_due() {
    let mut helper = ProgressCallbackHelper::default();
    let report = helper.update_receiving(4, 4, 3 * 1024 * 1024, 1000, 7).report.unwrap();
    assert_eq!(report.speed, ScaledAmount { amount: 3 * 1024 * 1024, unit: ByteUnit::Mebi });
    assert_eq!(
        receiving_text(&report),
        "Receiving objects: 100% (4/4), 3.00 Mib | 3.00 MiB/s, done."
    );
}

#[test]
fn more_received_than_total_shows_nothing() {
    let mut helper = ProgressCallbackHelper::default();
    let update = helper.update_receiving(11, 10, 0, 1000, 100);
    assert_eq!(update, ReceivingUpdate { next_index: 100, report: None });
}

#[test]
fn receiving_render_of_a_report() {
    let report = ReceivingReport {
        index: 100,
        percent: 42,
        received: 42,
        total: 100,
        size: ScaledAmount { amount: 1536, unit: ByteUnit::Kibi },
        speed: ScaledAmount { amount: 2 * 1024 * 1024 * 1024, unit: ByteUnit::Gibi },
        done: false,
    };
    assert_eq!(
        report.render("1.50", "2.00"),
        "Receiving objects: 42% (42/100), 1.50 Kib | 2.00 GiB/s"
    );
}

#[test]
fn resolving_without_deltas_shows_nothing() {
    let mut helper = ProgressCallbackHelper::default();
    let update = helper.update_resolving(0, 0, 1000, 101);
    assert_eq!(update, ResolvingUpdate { next_index: 101, report: None });
    assert_eq!(helper.last_update_time, 0);
}

#[test]
fn resolving_is_rate_limited() {
    let mut helper = ProgressCallbackHelper::default();
    let update = helper.update_resolving(1, 4, 99, 101);
    assert_eq!(update, ResolvingUpdate { next_index: 101, report: None });
    let update = helper.update_resolving(1, 4, 100, 101);
    assert_eq!(update.next_index, 101);
    let report = update.report.unwrap();
    assert_eq!(
        report,
        ResolvingReport { index: 101, percent: 25, indexed: 1, total: 4, done: false }
    );
    assert_eq!(report.render(), "Resolving deltas: 25% (1/4)");
    assert_eq!(helper.last_update_time, 100);
    let update = helper.update_resolving(2, 4, 150, 101);
    assert_eq!(update.report, None);
}

#[test]
fn resolving_completion_is_never_dropped() {
    let mut helper = ProgressCallbackHelper::default();
    let update = helper.update_resolving(4, 4, 1, 101);
    assert_eq!(update.next_index, 102);
    let report = update.report.unwrap();
    assert!(report.done);
    assert_eq!(report.index, 101);
    assert_eq!(report.render(), "Resolving deltas: 100% (4/4), done.");
    assert_eq!(helper.last_update_time, 1);
}

#[test]
fn resolving_percent_is_rounded_down() {
    let mut helper = ProgressCallbackHelper::default();
    let report = helper.update_resolving(1, 3, 100, 101).report.unwrap();
    assert_eq!(report.percent, 33);
    assert_eq!(report.render(), "Resolving deltas: 33% (1/3)");
}

#[test]
fn inputs_that_are_not_taken_are_told() {
    let mut helper = ProgressCallbackHelper::default();
    helper.update_receiving(1, 10, 1000, 500, 100);
    // the clock went back
    assert!(!helper.can_receive(2, 10, 2000, 499, 100));
    assert!(!helper.can_resolve(1, 2, 499, 101));
    // the byte count went back where it is measured
    assert!(!helper.can_receive(2, 10, 999, 1000, 100));
    assert!(helper.can_receive(2, 10, 999, 999, 100));
    // a complete transfer of no objects
    assert!(!helper.can_receive(0, 0, 1000, 600, 100));
    assert!(helper.can_receive(0, 1, 1000, 600, 100));
    // no room for one more index
    assert!(!helper.can_receive(3, 3, 1000, 600, usize::MAX));
    assert!(helper.can_receive(2, 3, 1000, 600, usize::MAX));
    assert!(!helper.can_resolve(2, 2, 600, usize::MAX));
    assert!(helper.can_resolve(0, 0, 600, usize::MAX));
    assert!(helper.can_resolve(1, 2, 600, usize::MAX));
}

#[test]
fn huge_counts_do_not_overflow() {
    let mut helper = ProgressCallbackHelper::default();
    let report = helper
        .update_receiving(usize::MAX - 1, usize::MAX, usize::MAX, 500, 1)
        .report
        .unwrap();
    assert_eq!(report.percent, 99);
    assert_eq!(helper.previous_throughput, usize::MAX as u128 * 1000 / 500);
    let mut helper = ProgressCallbackHelper::default();
    let report = helper.update_resolving(usize::MAX - 1, usize::MAX, 500, 1).report.unwrap();
    assert_eq!(report.percent, 99);
}
