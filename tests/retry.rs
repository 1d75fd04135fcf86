use outbox::record::INITIAL_TTL;
use outbox::retry::{next_ttl, on_delivery, settle, Delivery, Settle};

/// Delivers a row again after every failure, as the stream does once its
/// budget is written back; `succeed` says whether the inner handler
/// succeeds on a row with the given budget. Returns the calls of the inner
/// handler, the budget when it succeeded and the number of publishes.
fn deliver(mut ttl: i16, succeed: impl Fn(i16) -> bool) -> (u32, Option<i16>, u32) {
    let mut calls = 0;
    let mut published = 0;
    loop {
        match on_delivery(ttl) {
            Delivery::PassOver => return (calls, None, published),
            Delivery::Invoke => {
                calls += 1;
                let ok = succeed(ttl);
                if ok {
                    published += 1;
                }
                match settle(ttl, ok) {
                    Settle::Done => return (calls, Some(ttl), published),
                    Settle::WriteTtl(t) => ttl = t,
                }
            }
        }
    }
}

#[test]
fn fails_twice_then_succeeds() {
    let attempts = std::cell::Cell::new(0);
    let (calls, ttl_at_success, published) = deliver(3, |_| {
        attempts.set(attempts.get() + 1);
        attempts.get() > 2
    });
    assert_eq!(calls, 3);
    assert_eq!(ttl_at_success, Some(1));
    assert_eq!(published, 1);
}

#[test]
fn error_gets_retried() {
    // two batches of two rows; the handler fails until the budget is down to one
    let n = 2;
    let mut total_attempts = 0;
    for _ in 0..n * 2 {
        let (calls, at, _) = deliver(INITIAL_TTL, |ttl| ttl as usize <= 1);
        assert_eq!(at, Some(1));
        total_attempts += calls;
    }
    assert_eq!(total_attempts, 12);
}

#[test]
fn budget_exhausted_row_is_dropped() {
    let (calls, at, published) = deliver(3, |_| false);
    assert_eq!(calls, 3);
    assert_eq!(at, None);
    assert_eq!(published, 0);
}

#[test]
fn dead_rows_never_reach_the_handler() {
    for ttl in [0i16, -1, i16::MIN] {
        for _ in 0..5 {
            assert_eq!(on_delivery(ttl), Delivery::PassOver);
        }
        assert_eq!(deliver(ttl, |_| panic!("inner handler called")), (0, None, 0));
    }
}

#[test]
fn failure_takes_exactly_one_off() {
    assert_eq!(settle(3, false), Settle::WriteTtl(2));
    assert_eq!(settle(1, false), Settle::WriteTtl(0));
    assert_eq!(settle(i16::MAX, false), Settle::WriteTtl(i16::MAX - 1));
    assert_eq!(settle(2, true), Settle::Done);
    assert_eq!(on_delivery(1), Delivery::Invoke);
    assert_eq!(next_ttl(3), Some(2));
    assert_eq!(next_ttl(0), Some(-1));
    assert_eq!(next_ttl(i16::MIN), None);
}
