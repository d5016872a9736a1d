use snake_game::clock::Clock;

#[test]
fn new_clock_has_taken_no_tick() {
    let clock = Clock::new(30);
    assert_eq!(clock.count(), 0);
}

#[test]
fn first_tick_is_due_as_soon_as_time_has_passed() {
    let clock = Clock::new(30);
    assert!(!clock.rdy_at(0));
    assert!(clock.rdy_at(1));
}

#[test]
fn second_tick_is_due_after_one_period() {
    let mut clock = Clock::new(30);
    clock.ack();
    assert_eq!(clock.count(), 1);
    assert!(!clock.rdy_at(33_333_333));
    assert!(clock.rdy_at(33_333_334));
}

#[test]
fn tick_at_a_whole_period_is_not_yet_due() {
    let mut clock = Clock::new(4);
    clock.ack();
    clock.ack();
    assert!(!clock.rdy_at(500_000_000));
    assert!(clock.rdy_at(500_000_001));
}

#[test]
fn clock_of_rate_zero_is_never_ready() {
    let clock = Clock::new(0);
    assert!(!clock.rdy_at(0));
    assert!(!clock.rdy_at(u128::MAX));
    assert!(!clock.rdy());
}

#[test]
fn clock_is_ready_at_the_largest_time() {
    let mut clock = Clock::new(u32::MAX);
    clock.ack();
    assert!(clock.rdy_at(u128::MAX));
}

#[test]
fn ack_counts_one_tick() {
    let mut clock = Clock::new(30);
    clock.ack();
    clock.ack();
    clock.ack();
    assert_eq!(clock.count(), 3);
}

#[test]
fn a_clock_that_lags_gives_one_tick_for_each_ack() {
    let mut clock = Clock::new(30);
    let late: u128 = 10_000_000_000;
    let mut taken = 0;
    while clock.rdy_at(late) {
        clock.ack();
        taken += 1;
        assert!(taken <= 300);
    }
    assert_eq!(taken, 300);
    assert_eq!(clock.count(), 300);
}

#[test]
fn polls_of_one_second_give_thirty_ticks() {
    let mut clock = Clock::new(30);
    let mut last = 0;
    let mut millis: u128 = 0;
    while millis <= 1000 {
        if clock.rdy_at(millis * 1_000_000) {
            clock.ack();
        }
        assert!(clock.count() >= last);
        last = clock.count();
        millis += 1;
    }
    assert_eq!(clock.count(), 30);
}

#[test]
fn rdy_reads_the_time_that_passes() {
    let clock = Clock::new(1_000_000);
    let mut ready = false;
    let mut polls = 0;
    while !ready && polls < 100_000_000 {
        ready = clock.rdy();
        polls += 1;
    }
    assert!(ready);
    assert!(clock.elapsed_nanos() > 0);
}
