use rage_front::builder::driver::{
    execute_parse, BuildEvent, BuildTask, Driver, DriverError, DriverPool,
};
use rage_front::builder::source::Source;
use rage_front::lexer::lexeme::Lexeme;

fn parse_task(name: &str, text: &str) -> BuildTask {
    BuildTask::Parse { source: Source::from_text(name.to_string(), text.to_string()) }
}

/// Dispatches, then runs every worker that holds an assignment and hands
/// its event back.
fn run_workers(pool: &mut DriverPool) {
    pool.dispatch();
    for i in 0..pool.worker_count() {
        if let Some(task) = pool.take_assignment(i) {
            let event = match &task {
                BuildTask::Parse { source } => execute_parse(source),
                BuildTask::Shutdown => BuildEvent::ShutdownAck,
                _ => BuildEvent::ShutdownAck,
            };
            pool.deliver(i, event).unwrap();
        }
    }
}

/// The first identifier scanned out of a parsed event, to correlate an
/// event back to the task that produced it.
fn parsed_label(event: &BuildEvent) -> String {
    match event {
        BuildEvent::Parsed { tokens } => match &tokens[0].1 {
            Lexeme::Label(s) => s.clone(),
            other => panic!("expected an identifier, got {:?}", other),
        },
        other => panic!("expected a parsed event, got {:?}", other),
    }
}

#[test]
fn worker_state_machine_cycle() {
    let mut d = Driver::new();
    assert!(d.is_available());
    assert_eq!(d.assign(parse_task("p", "x")), Ok(()));
    assert!(!d.is_available());
    let task = d.take_task().unwrap();
    let event = match &task {
        BuildTask::Parse { source } => execute_parse(source),
        _ => panic!("wrong task"),
    };
    assert_eq!(d.finish(event), Ok(()));
    let got = d.query().unwrap();
    assert_eq!(parsed_label(&got), "x");
    assert!(d.is_available());
}

#[test]
fn worker_rejects_second_task_while_busy() {
    // a single worker never holds two unacknowledged tasks
    let mut d = Driver::new();
    assert_eq!(d.assign(parse_task("p", "a")), Ok(()));
    assert_eq!(d.assign(parse_task("p", "b")), Err(DriverError::Busy));
    let _ = d.take_task().unwrap();
    assert_eq!(d.assign(parse_task("p", "c")), Err(DriverError::Busy));
    assert_eq!(d.finish(BuildEvent::ShutdownAck), Ok(()));
    assert_eq!(d.assign(parse_task("p", "d")), Err(DriverError::Busy));
    let _ = d.query().unwrap();
    assert_eq!(d.assign(parse_task("p", "e")), Ok(()));
}

#[test]
fn worker_shutdown_refused_while_busy() {
    let mut d = Driver::new();
    assert_eq!(d.assign(parse_task("p", "a")), Ok(()));
    assert_eq!(d.shutdown(), Err(DriverError::Busy));
    let _ = d.take_task().unwrap();
    assert_eq!(d.shutdown(), Err(DriverError::Busy));
    assert_eq!(d.finish(BuildEvent::ShutdownAck), Ok(()));
    assert_eq!(d.shutdown(), Ok(()));
    assert_eq!(d.assign(parse_task("p", "b")), Err(DriverError::Closed));
}

#[test]
fn pool_liveness_more_tasks_than_workers() {
    // five tasks on two workers: driving the pool yields exactly five
    // events, one per task, none twice
    let names = ["t0", "t1", "t2", "t3", "t4"];
    let mut pool = DriverPool::new(2);
    for name in &names {
        pool.submit(parse_task("p", name));
    }
    let mut labels: Vec<String> = Vec::new();
    for _round in 0..100 {
        pool.dispatch();
        run_workers(&mut pool);
        while let Some(event) = pool.poll_any() {
            labels.push(parsed_label(&event));
        }
        if labels.len() == names.len() {
            break;
        }
    }
    labels.sort();
    assert_eq!(labels, names.iter().map(|s| s.to_string()).collect::<Vec<_>>());
    // nothing further comes out
    pool.dispatch();
    run_workers(&mut pool);
    assert_eq!(pool.poll_any(), None);
}

#[test]
fn priority_task_overtakes_queued_work() {
    // a and b are queued, not yet dispatched; c jumps the queue
    let mut pool = DriverPool::new(1);
    pool.submit(parse_task("p", "a"));
    pool.submit(parse_task("p", "b"));
    pool.submit_priority(parse_task("p", "c"));
    // the single worker got c, not a
    let took = pool.take_assignment(0).unwrap();
    match &took {
        BuildTask::Parse { source } => {
            let ev = execute_parse(source);
            assert_eq!(parsed_label(&ev), "c");
            pool.deliver(0, ev).unwrap();
        },
        _ => panic!("wrong task"),
    }
    let first = pool.poll_any().unwrap();
    assert_eq!(parsed_label(&first), "c");
    // the rest still comes out in submission order
    run_workers(&mut pool);
    assert_eq!(parsed_label(&pool.poll_any().unwrap()), "a");
    run_workers(&mut pool);
    assert_eq!(parsed_label(&pool.poll_any().unwrap()), "b");
}

#[test]
fn shutdown_is_terminal() {
    let mut pool = DriverPool::new(2);
    pool.submit(parse_task("p", "a"));
    pool.dispatch();
    run_workers(&mut pool);
    assert!(pool.poll_any().is_some());
    assert_eq!(pool.shutdown_all(), Ok(()));
    // no subsequent submit yields an event: workers accept no more work
    pool.submit(parse_task("p", "late"));
    assert_eq!(pool.poll_any(), None);
    pool.dispatch();
    run_workers(&mut pool);
    assert_eq!(pool.poll_any(), None);
}

#[test]
fn shutdown_counts_stuck_workers() {
    let mut pool = DriverPool::new(2);
    pool.submit(parse_task("p", "a"));
    pool.dispatch();
    // worker 0 holds an unfinished task and cannot acknowledge
    let err = pool.shutdown_all().unwrap_err();
    assert_eq!(err.stuck, 1);
}

#[test]
fn deliver_without_a_taken_task_is_rejected() {
    let mut pool = DriverPool::new(1);
    assert_eq!(pool.deliver(0, BuildEvent::ShutdownAck), Err(DriverError::NoTask));
    pool.submit(parse_task("p", "a"));
    pool.dispatch();
    // assigned but not yet taken by a worker: still no event owed
    assert_eq!(pool.deliver(0, BuildEvent::ShutdownAck), Err(DriverError::NoTask));
}

#[test]
fn parse_of_bad_source_is_an_error_event() {
    let mut pool = DriverPool::new(1);
    pool.submit_priority(parse_task("p", "//*"));
    run_workers(&mut pool);
    match pool.poll_any().unwrap() {
        BuildEvent::Error { context } => {
            let shown = format!("{:?}", context);
            assert!(shown.contains("DanglingLexeme"));
        },
        other => panic!("expected an error event, got {:?}", other),
    }
}
