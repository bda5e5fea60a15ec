use waiter::backoff::ExponentialBackoffWaiter;
use waiter::WaiterError;

/// The scaling an embedding shell performs between reading the current delay
/// and handing it to a wait step: multiply the nanosecond count as a 32-bit
/// float, truncate back to an integer.
fn scale(current: u64, multiplier: f32) -> u64 {
    (current as f32 * multiplier) as u64
}

/// One blocking wait as the shell drives it: read, scale, step.
fn wait_once(w: &mut ExponentialBackoffWaiter, multiplier: f32) -> Result<u64, WaiterError> {
    match w.current_delay() {
        Some(current) => w.wait(scale(current, multiplier)),
        None => Err(WaiterError::NotStarted),
    }
}

/// One suspending wait as the shell drives it: read, scale, step.
fn async_wait_once(w: &mut ExponentialBackoffWaiter, multiplier: f32) -> Result<u64, WaiterError> {
    match w.current_delay() {
        Some(current) => w.async_wait(scale(current, multiplier)),
        None => Err(WaiterError::NotStarted),
    }
}

const MS: u64 = 1_000_000;

#[test]
fn backoff_doubles_then_caps() {
    let mut w = ExponentialBackoffWaiter::new(100 * MS, 1000 * MS);
    w.start();
    let expected: [u64; 7] = [
        100 * MS,
        200 * MS,
        400 * MS,
        800 * MS,
        1000 * MS,
        1000 * MS,
        1000 * MS,
    ];
    for &e in expected.iter() {
        assert_eq!(wait_once(&mut w, 2.0), Ok(e));
    }
}

#[test]
fn backoff_restart_resets_to_initial() {
    let mut w = ExponentialBackoffWaiter::new(100 * MS, 1000 * MS);
    w.start();
    for _ in 0..4 {
        wait_once(&mut w, 2.0).unwrap();
    }
    assert_eq!(w.current_delay(), Some(1000 * MS));
    assert_eq!(w.restart(), Ok(()));
    assert_eq!(w.current_delay(), Some(100 * MS));
    assert_eq!(wait_once(&mut w, 2.0), Ok(100 * MS));
}

#[test]
fn backoff_not_started_fails() {
    let mut w = ExponentialBackoffWaiter::new(100 * MS, 1000 * MS);
    assert_eq!(wait_once(&mut w, 2.0), Err(WaiterError::NotStarted));
    assert_eq!(async_wait_once(&mut w, 2.0), Err(WaiterError::NotStarted));
    assert_eq!(w.restart(), Err(WaiterError::NotStarted));
    assert_eq!(w.current_delay(), None);
}

#[test]
fn backoff_wait_forms_interleave_identically() {
    let mut blocking = ExponentialBackoffWaiter::new(100 * MS, 1000 * MS);
    let mut mixed = ExponentialBackoffWaiter::new(100 * MS, 1000 * MS);
    blocking.start();
    mixed.start();
    for i in 0..6 {
        let a = wait_once(&mut blocking, 2.0);
        let b = if i % 2 == 0 {
            async_wait_once(&mut mixed, 2.0)
        } else {
            wait_once(&mut mixed, 2.0)
        };
        assert_eq!(a, b);
        assert_eq!(blocking.current_delay(), mixed.current_delay());
    }
}

#[test]
fn backoff_commits_growth_before_the_sleep() {
    let mut w = ExponentialBackoffWaiter::new(100 * MS, 1000 * MS);
    w.start();
    // The step hands back the pre-update delay, but the doubled delay is
    // already committed by the time the caller would go to sleep.
    assert_eq!(wait_once(&mut w, 2.0), Ok(100 * MS));
    assert_eq!(w.current_delay(), Some(200 * MS));
}

#[test]
fn backoff_initial_above_cap_is_clamped_on_first_step() {
    let mut w = ExponentialBackoffWaiter::new(2000 * MS, 1000 * MS);
    w.start();
    // start does not clamp: the first wait is the full initial delay.
    assert_eq!(w.current_delay(), Some(2000 * MS));
    assert_eq!(wait_once(&mut w, 2.0), Ok(2000 * MS));
    // The first committed step is clamped to the cap.
    assert_eq!(w.current_delay(), Some(1000 * MS));
}

#[test]
fn backoff_zero_initial_stays_zero() {
    let mut w = ExponentialBackoffWaiter::new(0, 1000 * MS);
    w.start();
    assert_eq!(wait_once(&mut w, 2.0), Ok(0));
    assert_eq!(wait_once(&mut w, 2.0), Ok(0));
    assert_eq!(w.current_delay(), Some(0));
}

#[test]
fn backoff_fractional_multiplier_truncates() {
    let mut w = ExponentialBackoffWaiter::new(3, 1000);
    w.start();
    // 3 * 1.5 = 4.5, truncated to 4 nanoseconds.
    assert_eq!(wait_once(&mut w, 1.5), Ok(3));
    assert_eq!(w.current_delay(), Some(4));
    // A multiplier below one shrinks the delay: 4 * 0.5 = 2.
    assert_eq!(wait_once(&mut w, 0.5), Ok(4));
    assert_eq!(w.current_delay(), Some(2));
}

#[test]
fn backoff_start_after_waits_reinitializes() {
    let mut w = ExponentialBackoffWaiter::new(100 * MS, 1000 * MS);
    w.start();
    wait_once(&mut w, 2.0).unwrap();
    wait_once(&mut w, 2.0).unwrap();
    w.start();
    assert_eq!(w.current_delay(), Some(100 * MS));
}
