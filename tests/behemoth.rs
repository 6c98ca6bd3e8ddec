use behemoth::cancel::CancelFlag;
use behemoth::channels::build_channels;
use behemoth::channels::make_channel_name;
use behemoth::channels::DataType;
use behemoth::decimal::decimal;
use behemoth::names::flow_name;
use behemoth::names::run_name;
use behemoth::pacer::ConfigError;
use behemoth::pacer::Pacer;
use behemoth::pool::PoolCycle;
use behemoth::pool::ValuePool;
use behemoth::pool::POOL_SIZE;
use behemoth::streaming::Phase;
use behemoth::streaming::RunError;
use behemoth::streaming::Step;
use behemoth::streaming::StreamLoop;
use std::collections::HashSet;

/// An ingestion session that counts calls; `submit` fails on call
/// `fail_on` (counted from one), and `close` fails when `close_fails`.
struct MockSession {
    submitted: Vec<usize>,
    closes: usize,
    fail_on: Option<usize>,
    close_fails: bool,
}

impl MockSession {
    fn new(fail_on: Option<usize>, close_fails: bool) -> MockSession {
        MockSession { submitted: Vec::new(), closes: 0, fail_on, close_fails }
    }

    fn submit(&mut self, index: usize) -> Result<(), String> {
        self.submitted.push(index);
        if self.fail_on == Some(self.submitted.len()) {
            Err(format!("submit {} failed", self.submitted.len()))
        } else {
            Ok(())
        }
    }

    fn close(&mut self) -> Result<(), String> {
        self.closes += 1;
        if self.close_fails {
            Err(String::from("close failed"))
        } else {
            Ok(())
        }
    }
}

/// Runs the loop against `session`; the flag is raised once `raise_after`
/// submissions have been made (while the last is in flight).
fn drive(
    session: &mut MockSession,
    flag: &CancelFlag,
    raise_after: Option<usize>,
) -> Result<(), RunError<String>> {
    let pacer = Pacer::new(1_000_000_000).unwrap();
    let mut run: StreamLoop<String> = StreamLoop::new(POOL_SIZE, pacer);
    loop {
        match run.next_step(flag.is_raised()) {
            Step::Close => break,
            Step::Submit(index) => {
                let outcome = session.submit(index);
                if raise_after == Some(session.submitted.len()) {
                    flag.raise();
                }
                run.record_submission(outcome, 0);
            }
        }
        assert!(session.submitted.len() < 10_000, "loop did not stop");
    }
    run.record_close(session.close())
}

#[test]
fn channel_matrix_two_by_three() {
    let channels = build_channels(2, 3);
    let names: Vec<&str> = channels.iter().map(|c| c.name.as_str()).collect();
    assert_eq!(
        names,
        vec![
            "sensor0.channel0",
            "sensor0.channel1",
            "sensor0.channel2",
            "sensor1.channel0",
            "sensor1.channel1",
            "sensor1.channel2",
        ]
    );
    assert!(channels.iter().all(|c| c.data_type == DataType::Int64));
}

#[test]
fn channel_matrix_empty_when_a_count_is_zero() {
    assert!(build_channels(0, 5).is_empty());
    assert!(build_channels(5, 0).is_empty());
    assert!(build_channels(0, 0).is_empty());
}

#[test]
fn channel_matrix_names_are_distinct_and_component_major() {
    let channels = build_channels(12, 11);
    assert_eq!(channels.len(), 132);
    let names: HashSet<&str> = channels.iter().map(|c| c.name.as_str()).collect();
    assert_eq!(names.len(), 132);
    assert_eq!(channels[1 * 11 + 10].name, "sensor1.channel10");
    assert_eq!(channels[11 * 11 + 1].name, "sensor11.channel1");
    assert_eq!(channels[131].name, "sensor11.channel10");
}

#[test]
fn channel_name_of_large_indices() {
    assert_eq!(make_channel_name(1234, 0), "sensor1234.channel0");
    assert_eq!(make_channel_name(7, 90), "sensor7.channel90");
}

#[test]
fn decimal_renderings() {
    assert_eq!(decimal(0), "0");
    assert_eq!(decimal(9), "9");
    assert_eq!(decimal(10), "10");
    assert_eq!(decimal(1_000_000_007), "1000000007");
    assert_eq!(decimal(u128::MAX), u128::MAX.to_string());
}

#[test]
fn flow_and_run_names() {
    assert_eq!(flow_name(100, 10, 1000), "behemoth.100.10.1000");
    assert_eq!(flow_name(0, 0, 1), "behemoth.0.0.1");
    assert_eq!(run_name("rover", 1_700_000_000_123), "rover.1700000000123");
    assert_eq!(run_name("", 0), ".0");
}

#[test]
fn value_pool_shape_and_range() {
    let channels = build_channels(2, 3);
    let pool = ValuePool::generate(&channels);
    assert_eq!(pool.len(), 100);
    assert_eq!(pool.width(), 6);
    for k in 0..pool.len() {
        let message = pool.message(k);
        assert_eq!(message.len(), 6);
        assert!(message.iter().all(|v| (1..100).contains(v)));
    }
}

#[test]
fn value_pool_draws_vary() {
    let channels = build_channels(10, 10);
    let pool = ValuePool::generate(&channels);
    let mut seen: HashSet<i64> = HashSet::new();
    for k in 0..pool.len() {
        seen.extend(pool.message(k).iter().copied());
    }
    // 10 000 uniform draws from 99 values cover far more than one of them.
    assert!(seen.len() > 50);
}

#[test]
fn value_pool_for_empty_matrix_holds_empty_messages() {
    let pool = ValuePool::generate(&build_channels(0, 3));
    assert_eq!(pool.len(), 100);
    assert_eq!(pool.width(), 0);
    assert!((0..100).all(|k| pool.message(k).is_empty()));
}

#[test]
fn cycle_wraps_at_pool_size() {
    let mut cycle = PoolCycle::new(POOL_SIZE);
    for k in 0..350usize {
        assert_eq!(cycle.peek(), k % 100);
        assert_eq!(cycle.next(), k % 100);
    }
}

#[test]
fn cycled_message_repeats_every_pool_length() {
    let pool = ValuePool::generate(&build_channels(3, 4));
    for k in 0..250u64 {
        assert_eq!(pool.message_at(k), pool.message((k % 100) as usize));
        assert_eq!(pool.message_at(k), pool.message_at(k + 100));
    }
    let mut cycle = pool.cycle();
    for k in 0..250u64 {
        assert_eq!(pool.message(cycle.next()), pool.message_at(k));
    }
}

#[test]
fn pacer_delay_at_one_kilohertz() {
    assert_eq!(Pacer::new(1000).unwrap().delay_ns(), 1_000_000);
}

#[test]
fn pacer_delay_at_one_hertz() {
    assert_eq!(Pacer::new(1).unwrap().delay_ns(), 1_000_000_000);
}

#[test]
fn pacer_delay_rounds_up() {
    assert_eq!(Pacer::new(3).unwrap().delay_ns(), 333_333_334);
    assert_eq!(Pacer::new(7).unwrap().delay_ns(), 142_857_143);
    assert_eq!(Pacer::new(100).unwrap().delay_ns(), 10_000_000);
    assert_eq!(Pacer::new(2_000_000_000).unwrap().delay_ns(), 1);
    assert_eq!(Pacer::new(u64::MAX).unwrap().delay_ns(), 1);
}

#[test]
fn pacer_rejects_zero_frequency() {
    assert!(matches!(Pacer::new(0), Err(ConfigError::ZeroFrequency)));
}

#[test]
fn pacer_pause_covers_the_rest_of_the_delay() {
    let pacer = Pacer::new(1000).unwrap();
    assert_eq!(pacer.pause_ns(0), 1_000_000);
    assert_eq!(pacer.pause_ns(250_000), 750_000);
    assert_eq!(pacer.pause_ns(1_000_000), 0);
    assert_eq!(pacer.pause_ns(5_000_000), 0);
}

#[test]
fn cancel_flag_raises_once_and_stays() {
    let flag = CancelFlag::new();
    assert!(!flag.is_raised());
    flag.raise();
    assert!(flag.is_raised());
    flag.raise();
    assert!(flag.is_raised());
}

#[test]
fn cancelled_loop_stops_after_in_flight_submission_and_closes_once() {
    let mut session = MockSession::new(None, false);
    let flag = CancelFlag::new();
    let result = drive(&mut session, &flag, Some(7));
    assert!(result.is_ok());
    assert_eq!(session.submitted, vec![0, 1, 2, 3, 4, 5, 6]);
    assert_eq!(session.closes, 1);
}

#[test]
fn loop_cancelled_before_start_submits_nothing() {
    let mut session = MockSession::new(None, false);
    let flag = CancelFlag::new();
    flag.raise();
    assert!(drive(&mut session, &flag, None).is_ok());
    assert!(session.submitted.is_empty());
    assert_eq!(session.closes, 1);
}

#[test]
fn failed_fifth_submission_stops_loop_and_closes_once() {
    let mut session = MockSession::new(Some(5), false);
    let flag = CancelFlag::new();
    let result = drive(&mut session, &flag, None);
    assert_eq!(session.submitted.len(), 5);
    assert_eq!(session.closes, 1);
    match result {
        Err(RunError::Submit(e)) => assert_eq!(e, "submit 5 failed"),
        other => panic!("unexpected result {:?}", other),
    }
}

#[test]
fn close_failure_after_clean_stop_is_reported() {
    let mut session = MockSession::new(None, true);
    let flag = CancelFlag::new();
    let result = drive(&mut session, &flag, Some(2));
    assert_eq!(session.closes, 1);
    match result {
        Err(RunError::Close(e)) => assert_eq!(e, "close failed"),
        other => panic!("unexpected result {:?}", other),
    }
}

#[test]
fn close_failure_does_not_mask_submission_failure() {
    let mut session = MockSession::new(Some(3), true);
    let flag = CancelFlag::new();
    let result = drive(&mut session, &flag, None);
    assert_eq!(session.submitted.len(), 3);
    assert_eq!(session.closes, 1);
    match result {
        Err(RunError::SubmitAndClose { submit, close }) => {
            assert_eq!(submit, "submit 3 failed");
            assert_eq!(close, "close failed");
        }
        other => panic!("unexpected result {:?}", other),
    }
}

#[test]
fn submissions_follow_the_pool_cycle() {
    let mut session = MockSession::new(None, false);
    let flag = CancelFlag::new();
    assert!(drive(&mut session, &flag, Some(205)).is_ok());
    assert_eq!(session.submitted.len(), 205);
    for (k, index) in session.submitted.iter().enumerate() {
        assert_eq!(*index, k % 100);
    }
}

#[test]
fn loop_phases_and_pauses() {
    let pacer = Pacer::new(1000).unwrap();
    let mut run: StreamLoop<String> = StreamLoop::new(100, pacer);
    assert_eq!(run.phase(), Phase::Running);
    assert_eq!(run.next_step(false), Step::Submit(0));
    assert_eq!(run.phase(), Phase::Submitting);
    assert_eq!(run.record_submission(Ok(()), 400_000), 600_000);
    assert_eq!(run.phase(), Phase::Running);
    assert_eq!(run.next_step(false), Step::Submit(1));
    assert_eq!(run.record_submission(Ok(()), 3_000_000), 0);
    assert_eq!(run.next_step(false), Step::Submit(2));
    assert_eq!(run.record_submission(Err(String::from("down")), 10), 0);
    assert_eq!(run.phase(), Phase::Draining);
    assert_eq!(run.next_step(false), Step::Close);
    assert_eq!(run.next_step(true), Step::Close);
    assert!(matches!(run.record_close(Ok(())), Err(RunError::Submit(e)) if e == "down"));
}

#[test]
fn end_to_end_two_components_three_channels_at_one_hundred_hertz() {
    let channels = build_channels(2, 3);
    assert_eq!(channels.len(), 6);
    assert_eq!(channels[0].name, "sensor0.channel0");
    assert_eq!(channels[5].name, "sensor1.channel2");
    let pool = ValuePool::generate(&channels);
    let pacer = Pacer::new(100).unwrap();
    assert_eq!(pacer.delay_ns(), 10_000_000);
    let mut run: StreamLoop<String> = StreamLoop::new(pool.len(), pacer);
    // Each tick spends some time submitting, then pauses for the rest of the
    // delay; the spacing between tick starts is the sum of both.
    let mut total_ns: u64 = 0;
    for tick in 0..50u64 {
        match run.next_step(false) {
            Step::Submit(index) => {
                assert_eq!(pool.message(index).len(), 6);
                let elapsed = 1_000_000 + (tick % 7) * 1_000_000;
                let pause = run.record_submission(Ok(()), elapsed);
                total_ns += elapsed + pause;
            }
            Step::Close => panic!("loop stopped early"),
        }
    }
    assert_eq!(total_ns / 50, 10_000_000);
}
