use std::cell::Cell;
use std::rc::Rc;

use backon::{
    Backoff, BlockingRetry, BlockingRetryable, BlockingSleeper, BlockingTurn, Duration,
    ExponentialBuilder, RetryCondition, RetryNotify,
};

struct NoSleep;

impl BlockingSleeper for NoSleep {
    fn sleep(&self, _dur: Duration) {}
}

struct AlwaysError;

impl BlockingRetryable for AlwaysError {
    type Output = ();
    type Error = String;

    fn run(&mut self) -> Result<(), String> {
        Err("test_query meets error".to_string())
    }
}

struct CountedError {
    error_times: Rc<Cell<usize>>,
    message: &'static str,
    chatty: bool,
}

impl BlockingRetryable for CountedError {
    type Output = ();
    type Error = String;

    fn run(&mut self) -> Result<(), String> {
        if self.chatty {
            println!("I have been called!");
        }
        self.error_times.set(self.error_times.get() + 1);
        Err(self.message.to_string())
    }
}

struct MessageIsRetryable;

impl RetryCondition<String> for MessageIsRetryable {
    fn retryable(&mut self, err: &String) -> bool {
        err.to_string() == "retryable"
    }
}

fn drive<B, F, RF, NF, SF>(mut retry: BlockingRetry<B, F, RF, NF, SF>) -> Result<F::Output, F::Error>
where
    B: Backoff,
    F: BlockingRetryable,
    RF: RetryCondition<F::Error>,
    NF: RetryNotify<F::Error>,
    SF: BlockingSleeper,
{
    loop {
        match retry.turn() {
            BlockingTurn::Done(result) => return result,
            BlockingTurn::Sleep(dur) => retry.rest(dur),
        }
    }
}

#[test]
fn test_retry() {
    let backoff = ExponentialBuilder::default()
        .with_min_delay(Duration::from_millis(1))
        .build();
    let result = drive(BlockingRetry::new(AlwaysError, backoff).sleep(NoSleep));

    assert!(result.is_err());
    assert_eq!("test_query meets error", result.unwrap_err().to_string());
}

#[test]
fn test_retry_with_not_retryable_error() {
    let error_times = Rc::new(Cell::new(0));

    let f = CountedError { error_times: error_times.clone(), message: "not retryable", chatty: false };

    let backoff = ExponentialBuilder::default()
        .with_min_delay(Duration::from_millis(1))
        .build();
    let result = drive(
        BlockingRetry::new(f, backoff)
            // Only retry If error message is `retryable`
            .when(MessageIsRetryable)
            .sleep(NoSleep),
    );

    assert!(result.is_err());
    assert_eq!("not retryable", result.unwrap_err().to_string());
    // `f` always returns error "not retryable", so it should be executed
    // only once.
    assert_eq!(error_times.get(), 1);
}

#[test]
fn test_retry_with_retryable_error() {
    let error_times = Rc::new(Cell::new(0));

    let f = CountedError { error_times: error_times.clone(), message: "retryable", chatty: true };

    let backoff = ExponentialBuilder::default()
        .with_min_delay(Duration::from_millis(1))
        .build();
    let result = drive(
        BlockingRetry::new(f, backoff)
            // Only retry If error message is `retryable`
            .when(MessageIsRetryable)
            .sleep(NoSleep),
    );

    assert!(result.is_err());
    assert_eq!("retryable", result.unwrap_err().to_string());
    // `f` always returns error "retryable", so it should be executed
    // 4 times (retry 3 times).
    assert_eq!(error_times.get(), 4);
}

#[test]
fn test_retry_succeeds_after_failures() {
    let error_times = Rc::new(Cell::new(0));

    struct EventuallyOk {
        tries: Rc<Cell<usize>>,
    }

    impl BlockingRetryable for EventuallyOk {
        type Output = &'static str;
        type Error = String;

        fn run(&mut self) -> Result<&'static str, String> {
            self.tries.set(self.tries.get() + 1);
            if self.tries.get() < 3 {
                Err("retryable".to_string())
            } else {
                Ok("hello, world!")
            }
        }
    }

    let backoff = ExponentialBuilder::default()
        .with_min_delay(Duration::from_millis(1))
        .build();
    let result = drive(
        BlockingRetry::new(EventuallyOk { tries: error_times.clone() }, backoff).sleep(NoSleep),
    );

    assert_eq!(result, Ok("hello, world!"));
    assert_eq!(error_times.get(), 3);
}
