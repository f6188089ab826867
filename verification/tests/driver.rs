use std::cell::{Cell, RefCell};
use std::rc::Rc;

use backon::{
    BlockingRetry, BlockingRetryable, BlockingRetryableWithContext, BlockingRetryWithContext,
    BlockingSleeper, BlockingTurn, ConstantBuilder, ContextTurn, Duration, RetryCondition,
    RetryNotify,
};

struct RecordingSleeper {
    log: Rc<RefCell<Vec<&'static str>>>,
}

impl BlockingSleeper for RecordingSleeper {
    fn sleep(&self, _dur: Duration) {
        self.log.borrow_mut().push("sleep");
    }
}

struct RecordingNotify {
    log: Rc<RefCell<Vec<&'static str>>>,
    count: Rc<Cell<usize>>,
}

impl RetryNotify<String> for RecordingNotify {
    fn notify(&mut self, _err: &String, _dur: Duration) {
        self.log.borrow_mut().push("notify");
        self.count.set(self.count.get() + 1);
    }
}

struct FailingOp {
    calls: Rc<Cell<usize>>,
}

impl BlockingRetryable for FailingOp {
    type Output = ();
    type Error = String;

    fn run(&mut self) -> Result<(), String> {
        self.calls.set(self.calls.get() + 1);
        Err("boom".to_string())
    }
}

struct NeverRetry;

impl RetryCondition<String> for NeverRetry {
    fn retryable(&mut self, _err: &String) -> bool {
        false
    }
}

#[test]
fn test_not_retryable_failure_runs_once_without_suspension() {
    let calls = Rc::new(Cell::new(0));
    let log = Rc::new(RefCell::new(Vec::new()));

    let mut retry = BlockingRetry::new(
        FailingOp { calls: calls.clone() },
        ConstantBuilder::default().build(),
    )
    .when(NeverRetry)
    .sleep(RecordingSleeper { log: log.clone() });

    let result = match retry.turn() {
        BlockingTurn::Done(result) => result,
        BlockingTurn::Sleep(_) => panic!("suspended on a non-retryable failure"),
    };

    assert_eq!(result, Err("boom".to_string()));
    // The operation ran exactly once and nothing was slept or notified.
    assert_eq!(calls.get(), 1);
    assert!(log.borrow().is_empty());
}

#[test]
fn test_exhaustion_counts_and_notify_ordering() {
    let calls = Rc::new(Cell::new(0));
    let notified = Rc::new(Cell::new(0));
    let log = Rc::new(RefCell::new(Vec::new()));

    let mut retry = BlockingRetry::new(
        FailingOp { calls: calls.clone() },
        ConstantBuilder::default()
            .with_delay(Duration::from_millis(1))
            .with_max_times(3)
            .build(),
    )
    .notify(RecordingNotify { log: log.clone(), count: notified.clone() })
    .sleep(RecordingSleeper { log: log.clone() });

    let result = loop {
        match retry.turn() {
            BlockingTurn::Done(result) => break result,
            BlockingTurn::Sleep(dur) => retry.rest(dur),
        }
    };

    assert_eq!(result, Err("boom".to_string()));
    // The policy yields exactly 3 delays: the operation runs 4 times and the
    // hook fires 3 times, each strictly before its suspension.
    assert_eq!(calls.get(), 4);
    assert_eq!(notified.get(), 3);
    assert_eq!(
        log.borrow().as_slice(),
        &["notify", "sleep", "notify", "sleep", "notify", "sleep"]
    );
}

struct NoSleep;

impl BlockingSleeper for NoSleep {
    fn sleep(&self, _dur: Duration) {}
}

struct AppendingOp;

impl BlockingRetryableWithContext for AppendingOp {
    type Context = Vec<u32>;
    type Output = usize;
    type Error = String;

    fn run(&mut self, mut ctx: Vec<u32>) -> (Vec<u32>, Result<usize, String>) {
        ctx.push(ctx.len() as u32);
        if ctx.len() >= 3 {
            let n = ctx.len();
            (ctx, Ok(n))
        } else {
            (ctx, Err("retryable".to_string()))
        }
    }
}

#[test]
fn test_context_is_threaded_through_attempts_and_returned() {
    let mut retry = BlockingRetryWithContext::new(
        AppendingOp,
        ConstantBuilder::default()
            .with_delay(Duration::from_millis(1))
            .build(),
    )
    .context(Vec::new())
    .sleep(NoSleep);

    let (ctx, result) = loop {
        match retry.turn() {
            ContextTurn::Done(ctx, result) => break (ctx, result),
            ContextTurn::Sleep(dur) => retry.rest(dur),
        }
    };

    assert_eq!(result, Ok(3));
    // Every attempt saw the context exactly once and handed it back.
    assert_eq!(ctx, vec![0, 1, 2]);
}

struct FailingCtxOp;

impl BlockingRetryableWithContext for FailingCtxOp {
    type Context = String;
    type Output = ();
    type Error = String;

    fn run(&mut self, ctx: String) -> (String, Result<(), String>) {
        (ctx, Err("always failing".to_string()))
    }
}

#[test]
fn test_context_comes_back_with_the_terminal_error() {
    let mut retry = BlockingRetryWithContext::new(
        FailingCtxOp,
        ConstantBuilder::default()
            .with_delay(Duration::from_millis(1))
            .with_max_times(2)
            .build(),
    )
    .context("kept".to_string())
    .sleep(NoSleep);

    let (ctx, result) = loop {
        match retry.turn() {
            ContextTurn::Done(ctx, result) => break (ctx, result),
            ContextTurn::Sleep(dur) => retry.rest(dur),
        }
    };

    assert_eq!(result, Err("always failing".to_string()));
    assert_eq!(ctx, "kept");
}
