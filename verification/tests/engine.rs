use sawtooth_pbft::engine::{
    dispatch, handle_pbft_result, node_id, Action, Block, Dispatch, EngineLoop, Event, Incoming,
    LogEntry, LogLevel, NodeOp, PbftEngine, PbftError, PeerInfo, PeerMessage, Phase, Step, Update,
};

fn block(id: u8) -> Block {
    Block {
        block_id: vec![id],
        previous_id: vec![id.wrapping_sub(1)],
        signer_id: vec![0xaa],
        block_num: id as u64,
        payload: vec![1, 2, 3],
        summary: vec![4, 5],
    }
}

fn message(content: u8) -> PeerMessage {
    let mut message = PeerMessage::default();
    message.header.message_type = "PrePrepare".to_string();
    message.content = vec![content];
    message
}

fn entry(level: LogLevel, message: &str) -> Option<LogEntry> {
    Some(LogEntry {
        level,
        message: message.to_string(),
    })
}

/// What a run of the loop did, as the caller of the loop sees it.
#[derive(Debug, Default)]
struct Trace {
    invoked: Vec<NodeOp>,
    logged: Vec<LogEntry>,
    commits: usize,
    waits: usize,
    stopped: bool,
}

/// A stand-in for the world around the loop: a queue of updates, a clock
/// that advances by a fixed amount at each reading, and a node whose
/// operations end as the closures say.
fn drive(
    block_duration: u64,
    message_timeout: u64,
    updates: Vec<Incoming>,
    clock_step: u64,
    result_of: impl Fn(&NodeOp) -> Result<(), PbftError>,
    expired: bool,
) -> (EngineLoop, Trace) {
    let mut updates = updates.into_iter();
    let mut clock = 0;
    let mut trace = Trace::default();
    let (mut engine, first) = PbftEngine::new().start(block_duration, message_timeout, clock);
    let mut step = first;
    loop {
        if let Some(entry) = step.log {
            trace.logged.push(entry);
        }
        if step.commit {
            trace.commits += 1;
        }
        let event = match step.action {
            Action::Receive(timeout) => {
                assert_eq!(timeout, message_timeout);
                trace.waits += 1;
                match updates.next() {
                    Some(incoming) => Event::Received(incoming),
                    None => return (engine, trace),
                }
            }
            Action::Invoke(NodeOp::CheckTimeoutExpired) => {
                trace.invoked.push(NodeOp::CheckTimeoutExpired);
                Event::TimeoutChecked(expired)
            }
            Action::Invoke(op) => {
                let result = result_of(&op);
                trace.invoked.push(op);
                Event::Completed(result)
            }
            Action::ReadClock => {
                clock += clock_step;
                Event::Clock(clock)
            }
            Action::Stop => {
                trace.stopped = true;
                return (engine, trace);
            }
        };
        step = engine.step(event).unwrap();
    }
}

fn receiving() -> EngineLoop {
    EngineLoop::new(1000, 1000, 0)
}

fn after(events: Vec<Event>) -> (EngineLoop, Step) {
    let mut engine = receiving();
    let mut last = None;
    for event in events {
        last = engine.step(event);
        assert!(last.is_some());
    }
    (engine, last.unwrap())
}

#[test]
fn start_waits_for_the_first_update() {
    let (engine, first) = PbftEngine::new().start(70, 30, 5);
    assert_eq!(engine.phase(), Phase::Receiving);
    assert_eq!(engine.message_timeout(), 30);
    assert!(!engine.is_terminated());
    assert_eq!(
        first,
        Step {
            log: None,
            commit: false,
            action: Action::Receive(30)
        }
    );
}

#[test]
fn dispatch_order_stops_at_shutdown() {
    let updates = vec![
        Incoming::Update(Update::BlockNew(block(1))),
        Incoming::Update(Update::PeerMessage(message(7), vec![9])),
        Incoming::Update(Update::Shutdown),
        Incoming::Update(Update::BlockCommit(vec![2])),
    ];
    let (mut engine, trace) = drive(1000, 1000, updates, 1, |_| Ok(()), false);
    assert_eq!(
        trace.invoked,
        vec![NodeOp::OnBlockNew(block(1)), NodeOp::OnPeerMessage(message(7))]
    );
    assert!(trace.stopped);
    assert!(engine.is_terminated());
    assert_eq!(trace.waits, 3);
    assert_eq!(trace.commits, 3);
    assert!(trace.logged.is_empty());

    // The update behind the shutdown is refused, as is everything else.
    assert_eq!(
        engine.step(Event::Received(Incoming::Update(Update::BlockCommit(vec![2])))),
        None
    );
    assert_eq!(engine.step(Event::Clock(5000)), None);
    assert_eq!(engine.step(Event::Completed(Ok(()))), None);
    assert_eq!(engine.step(Event::TimeoutChecked(true)), None);
    assert_eq!(engine.phase(), Phase::Terminated);
}

#[test]
fn transient_failure_is_traced_and_the_loop_goes_on() {
    let updates = vec![
        Incoming::Update(Update::PeerMessage(message(1), vec![9])),
        Incoming::Update(Update::BlockValid(vec![3])),
    ];
    let (engine, trace) = drive(
        1000,
        1000,
        updates,
        1,
        |op| match op {
            NodeOp::OnPeerMessage(_) => Err(PbftError::NotReadyForMessage("not ready".to_string())),
            _ => Ok(()),
        },
        false,
    );
    assert_eq!(
        trace.logged,
        vec![LogEntry {
            level: LogLevel::Trace,
            message: "not ready".to_string()
        }]
    );
    assert!(trace.logged.iter().all(|entry| entry.level != LogLevel::Error));
    assert!(!trace.stopped);
    assert!(!engine.is_terminated());
    assert_eq!(
        trace.invoked,
        vec![NodeOp::OnPeerMessage(message(1)), NodeOp::OnBlockValid(vec![3])]
    );
}

#[test]
fn disconnect_ends_the_loop() {
    let updates = vec![
        Incoming::Disconnected,
        Incoming::Update(Update::BlockNew(block(1))),
    ];
    let (engine, trace) = drive(1000, 1000, updates, 1, |_| Ok(()), false);
    assert!(trace.stopped);
    assert!(engine.is_terminated());
    assert!(trace.invoked.is_empty());
    assert_eq!(
        trace.logged,
        vec![LogEntry {
            level: LogLevel::Error,
            message: "Disconnected from validator".to_string()
        }]
    );
    assert_eq!(trace.commits, 1);
}

#[test]
fn peer_connected_is_logged_and_the_next_update_is_dispatched() {
    let updates = vec![
        Incoming::Update(Update::PeerConnected(PeerInfo { peer_id: vec![4] })),
        Incoming::Update(Update::BlockCommit(vec![8])),
    ];
    let (engine, trace) = drive(1000, 1000, updates, 1, |_| Ok(()), false);
    assert_eq!(
        trace.logged,
        vec![LogEntry {
            level: LogLevel::Error,
            message: "PBFT currently only supports static networks".to_string()
        }]
    );
    assert_eq!(trace.invoked, vec![NodeOp::OnBlockCommit(vec![8])]);
    assert!(!engine.is_terminated());
    assert_eq!(trace.commits, 2);
}

#[test]
fn operational_failure_is_an_error_and_the_loop_goes_on() {
    let updates = vec![
        Incoming::Update(Update::BlockNew(block(1))),
        Incoming::Update(Update::BlockNew(block(2))),
    ];
    let (engine, trace) = drive(
        1000,
        1000,
        updates,
        1,
        |op| {
            if *op == NodeOp::OnBlockNew(block(1)) {
                Err(PbftError::Other("block mismatch".to_string()))
            } else {
                Ok(())
            }
        },
        false,
    );
    assert_eq!(
        trace.logged,
        vec![LogEntry {
            level: LogLevel::Error,
            message: "block mismatch".to_string()
        }]
    );
    assert_eq!(
        trace.invoked,
        vec![NodeOp::OnBlockNew(block(1)), NodeOp::OnBlockNew(block(2))]
    );
    assert!(!engine.is_terminated());
}

#[test]
fn receive_timeout_goes_straight_to_the_tickers() {
    let (engine, step) = after(vec![Event::Received(Incoming::Timeout)]);
    assert_eq!(engine.phase(), Phase::WorkingClock);
    assert_eq!(
        step,
        Step {
            log: None,
            commit: false,
            action: Action::ReadClock
        }
    );
}

#[test]
fn pass_without_a_fire_reads_the_clock_twice_and_commits() {
    let mut engine = receiving();
    let step = engine
        .step(Event::Received(Incoming::Update(Update::BlockValid(vec![1]))))
        .unwrap();
    assert_eq!(step.action, Action::Invoke(NodeOp::OnBlockValid(vec![1])));
    assert_eq!(engine.phase(), Phase::Dispatching);
    let step = engine.step(Event::Completed(Ok(()))).unwrap();
    assert_eq!(step.action, Action::ReadClock);
    assert!(!step.commit);
    assert_eq!(engine.phase(), Phase::WorkingClock);
    let step = engine.step(Event::Clock(999)).unwrap();
    assert_eq!(step.action, Action::ReadClock);
    assert!(!step.commit);
    assert_eq!(engine.phase(), Phase::BacklogClock);
    let step = engine.step(Event::Clock(999)).unwrap();
    assert_eq!(
        step,
        Step {
            log: None,
            commit: true,
            action: Action::Receive(1000)
        }
    );
    assert_eq!(engine.phase(), Phase::Receiving);
}

#[test]
fn working_ticker_publishes_and_checks_the_timeout() {
    let updates = vec![Incoming::Timeout];
    // Block production every 10, backlog every 1000; the clock reads 10, 20.
    let (_, trace) = drive(10, 1000, updates, 10, |_| Ok(()), false);
    assert_eq!(
        trace.invoked,
        vec![NodeOp::TryPublish, NodeOp::CheckTimeoutExpired]
    );
    assert_eq!(trace.commits, 1);
}

#[test]
fn expired_timeout_starts_a_view_change() {
    let updates = vec![Incoming::Timeout];
    let (_, trace) = drive(10, 1000, updates, 10, |_| Ok(()), true);
    assert_eq!(
        trace.invoked,
        vec![
            NodeOp::TryPublish,
            NodeOp::CheckTimeoutExpired,
            NodeOp::StartViewChange
        ]
    );
}

#[test]
fn backlog_ticker_retries_the_backlog() {
    let updates = vec![Incoming::Timeout];
    // Block production every 1000, backlog every 20; the clock reads 10, 20.
    let (_, trace) = drive(1000, 20, updates, 10, |_| Ok(()), false);
    assert_eq!(trace.invoked, vec![NodeOp::RetryBacklog]);
    assert_eq!(trace.commits, 1);
}

#[test]
fn full_pass_runs_dispatch_then_working_then_backlog() {
    let updates = vec![Incoming::Update(Update::BlockNew(block(3)))];
    let (engine, trace) = drive(10, 10, updates, 10, |_| Ok(()), true);
    assert_eq!(
        trace.invoked,
        vec![
            NodeOp::OnBlockNew(block(3)),
            NodeOp::TryPublish,
            NodeOp::CheckTimeoutExpired,
            NodeOp::StartViewChange,
            NodeOp::RetryBacklog
        ]
    );
    assert_eq!(trace.commits, 1);
    assert_eq!(trace.waits, 2);
    assert_eq!(engine.phase(), Phase::Receiving);
}

#[test]
fn tickers_fire_once_after_a_long_silence() {
    let updates = vec![Incoming::Timeout, Incoming::Timeout];
    // The first reading is 5000, fifty intervals late; within the second
    // pass only 2 * 5000 more have gone by per reading.
    let mut engine = EngineLoop::new(100, 100, 0);
    let mut published = 0;
    let mut clock = 0;
    let mut updates = updates.into_iter();
    let mut step = engine.step(Event::Received(updates.next().unwrap())).unwrap();
    loop {
        let event = match step.action {
            Action::Receive(_) => match updates.next() {
                Some(incoming) => {
                    clock = 5000;
                    Event::Received(incoming)
                }
                None => break,
            },
            Action::ReadClock => {
                if clock == 0 {
                    clock = 5000;
                }
                Event::Clock(clock)
            }
            Action::Invoke(NodeOp::TryPublish) => {
                published += 1;
                Event::Completed(Ok(()))
            }
            Action::Invoke(NodeOp::CheckTimeoutExpired) => Event::TimeoutChecked(false),
            Action::Invoke(_) => Event::Completed(Ok(())),
            Action::Stop => break,
        };
        step = engine.step(event).unwrap();
    }
    assert_eq!(published, 1);
}

#[test]
fn publish_failure_is_routed_like_any_result() {
    let (_, step) = after(vec![
        Event::Received(Incoming::Timeout),
        Event::Clock(1000),
        Event::Completed(Err(PbftError::Other("no working block".to_string()))),
    ]);
    assert_eq!(
        step,
        Step {
            log: entry(LogLevel::Error, "no working block"),
            commit: false,
            action: Action::Invoke(NodeOp::CheckTimeoutExpired)
        }
    );
    let (_, step) = after(vec![
        Event::Received(Incoming::Timeout),
        Event::Clock(1000),
        Event::Completed(Err(PbftError::WrongNumMessages("2 of 3".to_string()))),
    ]);
    assert_eq!(step.log, entry(LogLevel::Trace, "2 of 3"));
}

#[test]
fn view_change_failure_is_logged_and_the_backlog_comes_next() {
    let (engine, step) = after(vec![
        Event::Received(Incoming::Timeout),
        Event::Clock(1000),
        Event::Completed(Ok(())),
        Event::TimeoutChecked(true),
        Event::Completed(Err(PbftError::Other("view mismatch".to_string()))),
    ]);
    assert_eq!(engine.phase(), Phase::BacklogClock);
    assert_eq!(
        step,
        Step {
            log: entry(LogLevel::Error, "view mismatch"),
            commit: false,
            action: Action::ReadClock
        }
    );
}

#[test]
fn backlog_failure_is_logged_as_the_pass_ends() {
    let (engine, step) = after(vec![
        Event::Received(Incoming::Timeout),
        Event::Clock(10),
        Event::Clock(1000),
        Event::Completed(Err(PbftError::NotReadyForMessage("still waiting".to_string()))),
    ]);
    assert_eq!(engine.phase(), Phase::Receiving);
    assert_eq!(
        step,
        Step {
            log: entry(LogLevel::Trace, "still waiting"),
            commit: true,
            action: Action::Receive(1000)
        }
    );
}

#[test]
fn event_out_of_turn_is_refused() {
    let mut engine = receiving();
    assert_eq!(engine.step(Event::Clock(1)), None);
    assert_eq!(engine.step(Event::Completed(Ok(()))), None);
    assert_eq!(engine.step(Event::TimeoutChecked(false)), None);
    assert_eq!(engine.phase(), Phase::Receiving);

    engine
        .step(Event::Received(Incoming::Update(Update::BlockNew(block(1)))))
        .unwrap();
    assert_eq!(engine.step(Event::Received(Incoming::Timeout)), None);
    assert_eq!(engine.step(Event::Clock(1)), None);
    assert_eq!(engine.phase(), Phase::Dispatching);
}

#[test]
fn shutdown_skips_the_tickers() {
    let (engine, step) = after(vec![Event::Received(Incoming::Update(Update::Shutdown))]);
    assert_eq!(engine.phase(), Phase::Terminated);
    assert_eq!(
        step,
        Step {
            log: None,
            commit: true,
            action: Action::Stop
        }
    );
}

#[test]
fn dispatch_names_the_operation_for_each_update() {
    assert_eq!(
        dispatch(Incoming::Update(Update::BlockNew(block(1)))),
        (None, Dispatch::Invoke(NodeOp::OnBlockNew(block(1))))
    );
    assert_eq!(
        dispatch(Incoming::Update(Update::BlockValid(vec![1, 2]))),
        (None, Dispatch::Invoke(NodeOp::OnBlockValid(vec![1, 2])))
    );
    assert_eq!(
        dispatch(Incoming::Update(Update::BlockCommit(vec![3]))),
        (None, Dispatch::Invoke(NodeOp::OnBlockCommit(vec![3])))
    );
    assert_eq!(
        dispatch(Incoming::Update(Update::PeerMessage(message(5), vec![6]))),
        (None, Dispatch::Invoke(NodeOp::OnPeerMessage(message(5))))
    );
    assert_eq!(
        dispatch(Incoming::Update(Update::BlockInvalid(vec![7]))),
        (
            entry(LogLevel::Warn, "BlockInvalid received, starting view change"),
            Dispatch::Invoke(NodeOp::StartViewChange)
        )
    );
}

#[test]
fn dispatch_calls_nothing_for_the_rest() {
    assert_eq!(
        dispatch(Incoming::Update(Update::Shutdown)),
        (None, Dispatch::Stop)
    );
    assert_eq!(
        dispatch(Incoming::Disconnected),
        (
            entry(LogLevel::Error, "Disconnected from validator"),
            Dispatch::Stop
        )
    );
    assert_eq!(
        dispatch(Incoming::Timeout),
        (None, Dispatch::Done(Err(PbftError::Timeout)))
    );
    assert_eq!(
        dispatch(Incoming::Update(Update::PeerConnected(PeerInfo {
            peer_id: vec![1]
        }))),
        (
            entry(LogLevel::Error, "PBFT currently only supports static networks"),
            Dispatch::Done(Ok(()))
        )
    );
    assert_eq!(
        dispatch(Incoming::Update(Update::PeerDisconnected(vec![1]))),
        (
            entry(LogLevel::Error, "PBFT currently only supports static networks"),
            Dispatch::Done(Ok(()))
        )
    );
}

#[test]
fn result_policy_by_class_of_failure() {
    assert_eq!(handle_pbft_result(Ok(())), None);
    assert_eq!(handle_pbft_result(Err(PbftError::Timeout)), None);
    assert_eq!(
        handle_pbft_result(Err(PbftError::WrongNumMessages("a".to_string()))),
        entry(LogLevel::Trace, "a")
    );
    assert_eq!(
        handle_pbft_result(Err(PbftError::NotReadyForMessage("b".to_string()))),
        entry(LogLevel::Trace, "b")
    );
    assert_eq!(
        handle_pbft_result(Err(PbftError::Other("c".to_string()))),
        entry(LogLevel::Error, "c")
    );
}

#[test]
fn node_id_is_the_place_in_the_peer_list() {
    let peers = vec![vec![1, 1], vec![2, 2], vec![3, 3]];
    assert_eq!(node_id(&peers, &vec![1, 1]), Some(0));
    assert_eq!(node_id(&peers, &vec![2, 2]), Some(1));
    assert_eq!(node_id(&peers, &vec![3, 3]), Some(2));
}

#[test]
fn node_id_of_a_stranger_is_none() {
    let peers = vec![vec![1, 1], vec![2, 2]];
    assert_eq!(node_id(&peers, &vec![1]), None);
    assert_eq!(node_id(&peers, &vec![1, 1, 1]), None);
    assert_eq!(node_id(&peers, &vec![2, 1]), None);
    assert_eq!(node_id(&peers, &vec![]), None);
    assert_eq!(node_id(&vec![], &vec![1]), None);
}

#[test]
fn node_id_is_the_first_of_equal_entries() {
    let peers = vec![vec![9], vec![5], vec![5], vec![]];
    assert_eq!(node_id(&peers, &vec![5]), Some(1));
    assert_eq!(node_id(&peers, &vec![]), Some(3));
}
