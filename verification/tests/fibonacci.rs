use backon::{Duration, FibonacciBuilder};

#[test]
fn test_fibonacci_default() {
    let mut fib = FibonacciBuilder::default().build();

    assert_eq!(Some(Duration::from_secs(1)), fib.next());
    assert_eq!(Some(Duration::from_secs(1)), fib.next());
    assert_eq!(Some(Duration::from_secs(2)), fib.next());
    assert_eq!(None, fib.next());
}

#[test]
fn test_fibonacci_jitter() {
    let mut fib = FibonacciBuilder::default().with_jitter().build();

    let v = fib.next().expect("value must valid");
    assert!(v >= Duration::from_secs(1), "current: {v:?}");
    assert!(v < Duration::from_secs(2), "current: {v:?}");

    let v = fib.next().expect("value must valid");
    assert!(v >= Duration::from_secs(1), "current: {v:?}");
    assert!(v < Duration::from_secs(2), "current: {v:?}");

    let v = fib.next().expect("value must valid");
    assert!(v >= Duration::from_secs(2), "current: {v:?}");
    assert!(v < Duration::from_secs(3), "current: {v:?}");

    assert_eq!(None, fib.next());
}

#[test]
fn test_fibonacci_min_delay() {
    let mut fib = FibonacciBuilder::default()
        .with_min_delay(Duration::from_millis(500))
        .build();

    assert_eq!(Some(Duration::from_millis(500)), fib.next());
    assert_eq!(Some(Duration::from_millis(500)), fib.next());
    assert_eq!(Some(Duration::from_secs(1)), fib.next());
    assert_eq!(None, fib.next());
}

#[test]
fn test_fibonacci_max_delay() {
    let mut fib = FibonacciBuilder::default()
        .with_max_times(4)
        .with_max_delay(Duration::from_secs(2))
        .build();

    assert_eq!(Some(Duration::from_secs(1)), fib.next());
    assert_eq!(Some(Duration::from_secs(1)), fib.next());
    assert_eq!(Some(Duration::from_secs(2)), fib.next());
    assert_eq!(Some(Duration::from_secs(2)), fib.next());
    assert_eq!(None, fib.next());
}

#[test]
fn test_fibonacci_no_max_delay() {
    let mut fib = FibonacciBuilder::default()
        .with_max_times(4)
        .with_min_delay(Duration::from_secs(10_000_000_000_000_000_000))
        .without_max_delay()
        .build();

    assert_eq!(
        Some(Duration::from_secs(10_000_000_000_000_000_000)),
        fib.next()
    );
    assert_eq!(
        Some(Duration::from_secs(10_000_000_000_000_000_000)),
        fib.next()
    );
    assert_eq!(Some(Duration::max_value()), fib.next());
    assert_eq!(Some(Duration::max_value()), fib.next());
    assert_eq!(None, fib.next());
}

#[test]
fn test_fibonacci_max_times() {
    let mut fib = FibonacciBuilder::default().with_max_times(6).build();

    assert_eq!(Some(Duration::from_secs(1)), fib.next());
    assert_eq!(Some(Duration::from_secs(1)), fib.next());
    assert_eq!(Some(Duration::from_secs(2)), fib.next());
    assert_eq!(Some(Duration::from_secs(3)), fib.next());
    assert_eq!(Some(Duration::from_secs(5)), fib.next());
    assert_eq!(Some(Duration::from_secs(8)), fib.next());
    assert_eq!(None, fib.next());
}

#[test]
fn test_fibonacci_no_max_times() {
    let mut fib = FibonacciBuilder::default()
        .with_min_delay(Duration::from_secs(0))
        .without_max_times()
        .build();

    // to fully test we would need to drive this to the counter's ceiling,
    // which seems unreasonable for a test as it would take too long...
    for _ in 0..10_000 {
        assert_eq!(Some(Duration::from_secs(0)), fib.next());
    }
}

#[test]
fn test_fibonacci_const_builder() {
    let test_builder = FibonacciBuilder::new()
        .with_jitter()
        .with_min_delay(Duration::from_secs(2))
        .with_max_delay(Duration::from_secs(30))
        .with_max_times(5);

    assert!(test_builder.jitter);
    assert_eq!(test_builder.min_delay, Duration::from_secs(2));
    assert_eq!(test_builder.max_delay, Some(Duration::from_secs(30)));
    assert_eq!(test_builder.max_times, Some(5));
}

#[test]
fn test_fibonacci_with_max_times_zero() {
    let mut fib = FibonacciBuilder::default().with_max_times(0).build();

    assert_eq!(None, fib.next());
    assert_eq!(None, fib.next());
}

#[test]
fn test_fibonacci_identical_runs_from_one_policy() {
    let builder = FibonacciBuilder::default()
        .with_min_delay(Duration::from_millis(250))
        .with_max_times(8);

    let mut a = builder.build();
    let mut b = builder.build();
    let mut delays_a = Vec::new();
    let mut delays_b = Vec::new();
    while let Some(d) = a.next() {
        delays_a.push(d);
    }
    while let Some(d) = b.next() {
        delays_b.push(d);
    }
    assert_eq!(delays_a, delays_b);
    assert_eq!(delays_a.len(), 8);
}
