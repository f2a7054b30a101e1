//! The scheduling decisions of the event loop.
//!
//! The loop itself waits for updates, calls the consensus node and reads the
//! clock; none of that happens here. [`EngineLoop`] is the loop turned inside
//! out: each [`Event`] that the caller reports is answered with the next
//! [`Action`] to carry out, so that the order of dispatch, periodic work and
//! persistence is fixed in one place.

use crate::timing::Ticker;
use crate::timing::TickerView;
use vstd::prelude::*;
use vstd::string::StringExecFns;

verus! {

/// Identifies a block.
pub type BlockId = Vec<u8>;

/// Identifies a peer.
pub type PeerId = Vec<u8>;

/// A block as the validator announces it.
#[derive(Clone, Debug, Default, PartialEq, Eq)]
pub struct Block {
    pub block_id: BlockId,
    pub previous_id: BlockId,
    pub signer_id: PeerId,
    pub block_num: u64,
    pub payload: Vec<u8>,
    pub summary: Vec<u8>,
}

/// What is known of a peer.
#[derive(Clone, Debug, Default, PartialEq, Eq)]
pub struct PeerInfo {
    pub peer_id: PeerId,
}

/// The signed header of a peer message.
#[derive(Clone, Debug, Default, PartialEq, Eq)]
pub struct PeerMessageHeader {
    pub signer_id: Vec<u8>,
    pub content_sha512: Vec<u8>,
    pub message_type: String,
    pub name: String,
    pub version: String,
}

/// A consensus message from a peer.
#[derive(Clone, Debug, Default, PartialEq, Eq)]
pub struct PeerMessage {
    pub header: PeerMessageHeader,
    pub header_bytes: Vec<u8>,
    pub header_signature: Vec<u8>,
    pub content: Vec<u8>,
}

/// One event from the validator.
#[derive(Clone, Debug, PartialEq, Eq)]
pub enum Update {
    PeerConnected(PeerInfo),
    PeerDisconnected(PeerId),
    PeerMessage(PeerMessage, PeerId),
    BlockNew(Block),
    BlockValid(BlockId),
    BlockInvalid(BlockId),
    BlockCommit(BlockId),
    Shutdown,
}

/// What a wait on the update stream ended with.
#[derive(Clone, Debug, PartialEq, Eq)]
pub enum Incoming {
    /// The next update.
    Update(Update),
    /// No update arrived within the receive timeout.
    Timeout,
    /// The sending side of the stream is gone for good.
    Disconnected,
}

/// A failure of a node operation, as far as the loop tells failures apart.
/// Where there is a text, it is the failure in words, as it is to be logged.
#[derive(Clone, Debug, PartialEq, Eq)]
pub enum PbftError {
    /// Nothing arrived in time. Expected, and passed over in silence.
    Timeout,
    /// A quorum step saw the wrong number of messages. Expected in normal
    /// operation.
    WrongNumMessages(String),
    /// The node is not yet ready for the message. Expected in normal
    /// operation.
    NotReadyForMessage(String),
    /// Any other failure of the consensus logic.
    Other(String),
}

/// The log tiers that the loop writes to.
#[derive(Clone, Copy, Debug, PartialEq, Eq, Structural)]
pub enum LogLevel {
    Trace,
    Warn,
    Error,
}

/// A line for the log.
#[derive(Clone, Debug, PartialEq, Eq)]
pub struct LogEntry {
    pub level: LogLevel,
    pub message: String,
}

/// Mathematical model of a [`LogEntry`].
pub struct LogEntryView {
    pub level: LogLevel,
    pub message: Seq<char>,
}

impl View for LogEntry {
    type V = LogEntryView;

    open spec fn view(&self) -> LogEntryView {
        LogEntryView { level: self.level, message: self.message@ }
    }
}

/// The model of a log line that may be absent.
pub open spec fn log_view(log: Option<LogEntry>) -> Option<LogEntryView> {
    match log {
        Some(entry) => Some(entry@),
        None => None,
    }
}

/// The log line that a failure leads to, if any.
pub open spec fn error_log(error: PbftError) -> Option<LogEntryView> {
    match error {
        PbftError::Timeout => None,
        PbftError::WrongNumMessages(message) => Some(
            LogEntryView { level: LogLevel::Trace, message: message@ },
        ),
        PbftError::NotReadyForMessage(message) => Some(
            LogEntryView { level: LogLevel::Trace, message: message@ },
        ),
        PbftError::Other(message) => Some(
            LogEntryView { level: LogLevel::Error, message: message@ },
        ),
    }
}

/// The log line that the result of a node operation leads to, if any.
pub open spec fn result_log(res: Result<(), PbftError>) -> Option<LogEntryView> {
    match res {
        Ok(_) => None,
        Err(error) => error_log(error),
    }
}

/// Decides what the result of a node operation means for the log. Success
/// and an expired wait are passed over. The failures that normal operation
/// brings are traced. Every other failure is logged as an error. None of
/// them stops the loop.
pub fn handle_pbft_result(res: Result<(), PbftError>) -> (log: Option<LogEntry>)
    ensures
        log_view(log) == result_log(res),
{
    match res {
        Ok(_) => None,
        Err(PbftError::Timeout) => None,
        Err(PbftError::WrongNumMessages(message)) => Some(
            LogEntry { level: LogLevel::Trace, message },
        ),
        Err(PbftError::NotReadyForMessage(message)) => Some(
            LogEntry { level: LogLevel::Trace, message },
        ),
        Err(PbftError::Other(message)) => Some(LogEntry { level: LogLevel::Error, message }),
    }
}

/// An operation of the consensus node. Each one but `CheckTimeoutExpired`
/// works on the consensus state under exclusive access and ends in a result;
/// `CheckTimeoutExpired` ends in a yes or no.
#[derive(Clone, Debug, PartialEq, Eq)]
pub enum NodeOp {
    OnBlockNew(Block),
    OnBlockValid(BlockId),
    OnBlockCommit(BlockId),
    OnPeerMessage(PeerMessage),
    StartViewChange,
    TryPublish,
    CheckTimeoutExpired,
    RetryBacklog,
}

/// What to do about one wait on the update stream.
#[derive(Debug, PartialEq, Eq)]
pub enum Dispatch {
    /// Call the node; the result of the call is the outcome of the update.
    Invoke(NodeOp),
    /// There is nothing to call: this is the outcome.
    Done(Result<(), PbftError>),
    /// Leave the loop.
    Stop,
}

/// Model of what [`dispatch`] returns: the log line and the decision.
pub struct DispatchView {
    pub log: Option<LogEntryView>,
    pub next: Dispatch,
}

/// The warning that an invalid block is logged with.
pub open spec fn invalid_block_message() -> Seq<char> {
    "BlockInvalid received, starting view change"@
}

/// The error that a change of the set of peers is logged with.
pub open spec fn static_network_message() -> Seq<char> {
    "PBFT currently only supports static networks"@
}

/// The error that the loss of the update stream is logged with.
pub open spec fn disconnected_message() -> Seq<char> {
    "Disconnected from validator"@
}

/// What is decided about the end of one wait on the update stream, and what
/// is logged about it.
///
/// A new, valid or committed block and a peer message go to the node
/// operation of that name, with the payload of the update; who sent a peer
/// message is not passed on. An invalid block is taken as a sign that the
/// primary is faulty: a warning, and a view change. A shutdown and the loss
/// of the stream leave the loop, the loss with an error in the log. Peers
/// that come or go are an error in the log and otherwise a success, as the
/// network is taken to be static. An expired wait is an outcome of its own
/// that no node operation stands behind.
pub open spec fn dispatched(incoming: Incoming) -> DispatchView {
    match incoming {
        Incoming::Update(Update::BlockNew(block)) => DispatchView {
            log: None,
            next: Dispatch::Invoke(NodeOp::OnBlockNew(block)),
        },
        Incoming::Update(Update::BlockValid(block_id)) => DispatchView {
            log: None,
            next: Dispatch::Invoke(NodeOp::OnBlockValid(block_id)),
        },
        Incoming::Update(Update::BlockInvalid(_)) => DispatchView {
            log: Some(LogEntryView { level: LogLevel::Warn, message: invalid_block_message() }),
            next: Dispatch::Invoke(NodeOp::StartViewChange),
        },
        Incoming::Update(Update::BlockCommit(block_id)) => DispatchView {
            log: None,
            next: Dispatch::Invoke(NodeOp::OnBlockCommit(block_id)),
        },
        Incoming::Update(Update::PeerMessage(message, _)) => DispatchView {
            log: None,
            next: Dispatch::Invoke(NodeOp::OnPeerMessage(message)),
        },
        Incoming::Update(Update::Shutdown) => DispatchView { log: None, next: Dispatch::Stop },
        Incoming::Update(Update::PeerConnected(_)) | Incoming::Update(
            Update::PeerDisconnected(_),
        ) => DispatchView {
            log: Some(
                LogEntryView { level: LogLevel::Error, message: static_network_message() },
            ),
            next: Dispatch::Done(Ok(())),
        },
        Incoming::Timeout => DispatchView {
            log: None,
            next: Dispatch::Done(Err(PbftError::Timeout)),
        },
        Incoming::Disconnected => DispatchView {
            log: Some(LogEntryView { level: LogLevel::Error, message: disconnected_message() }),
            next: Dispatch::Stop,
        },
    }
}

/// Decides what to do about the end of one wait on the update stream, and
/// what to log about it.
pub fn dispatch(incoming: Incoming) -> (out: (Option<LogEntry>, Dispatch))
    ensures
        log_view(out.0) == dispatched(incoming).log,
        out.1 == dispatched(incoming).next,
{
    match incoming {
        Incoming::Update(Update::BlockNew(block)) => (
            None,
            Dispatch::Invoke(NodeOp::OnBlockNew(block)),
        ),
        Incoming::Update(Update::BlockValid(block_id)) => (
            None,
            Dispatch::Invoke(NodeOp::OnBlockValid(block_id)),
        ),
        Incoming::Update(Update::BlockInvalid(_)) => (
            Some(
                LogEntry {
                    level: LogLevel::Warn,
                    message: String::from_str("BlockInvalid received, starting view change"),
                },
            ),
            Dispatch::Invoke(NodeOp::StartViewChange),
        ),
        Incoming::Update(Update::BlockCommit(block_id)) => (
            None,
            Dispatch::Invoke(NodeOp::OnBlockCommit(block_id)),
        ),
        Incoming::Update(Update::PeerMessage(message, _)) => (
            None,
            Dispatch::Invoke(NodeOp::OnPeerMessage(message)),
        ),
        Incoming::Update(Update::Shutdown) => (None, Dispatch::Stop),
        Incoming::Update(Update::PeerConnected(_)) | Incoming::Update(
            Update::PeerDisconnected(_),
        ) => (
            Some(
                LogEntry {
                    level: LogLevel::Error,
                    message: String::from_str("PBFT currently only supports static networks"),
                },
            ),
            Dispatch::Done(Ok(())),
        ),
        Incoming::Timeout => (None, Dispatch::Done(Err(PbftError::Timeout))),
        Incoming::Disconnected => (
            Some(
                LogEntry {
                    level: LogLevel::Error,
                    message: String::from_str("Disconnected from validator"),
                },
            ),
            Dispatch::Stop,
        ),
    }
}

/// Where the loop stands. All phases but `Terminated` are the loop running.
#[derive(Clone, Copy, Debug, PartialEq, Eq, Structural)]
pub enum Phase {
    /// Waiting for the update stream.
    Receiving,
    /// The node operation for an update is under way.
    Dispatching,
    /// Waiting for the clock, to poll the block-production ticker.
    WorkingClock,
    /// The node is trying to publish a block.
    Publishing,
    /// The node is checking whether its timeout has expired.
    CheckingTimeout,
    /// A view change for want of progress is under way.
    ChangingView,
    /// Waiting for the clock, to poll the backlog ticker.
    BacklogClock,
    /// The node is going through its backlog again.
    RetryingBacklog,
    /// The loop has ended. Nothing leads out of this phase.
    Terminated,
}

/// What the caller reports back after it has carried out an [`Action`].
#[derive(Debug, PartialEq, Eq)]
pub enum Event {
    /// The wait on the update stream has ended.
    Received(Incoming),
    /// A node operation has returned.
    Completed(Result<(), PbftError>),
    /// The node has said whether its timeout has expired.
    TimeoutChecked(bool),
    /// The monotonic clock was read, in nanoseconds.
    Clock(u64),
}

/// What the caller is to do next. It answers with the [`Event`] named.
#[derive(Debug, PartialEq, Eq)]
pub enum Action {
    /// Wait for the next update, for no longer than this many nanoseconds,
    /// then take exclusive access to the consensus state. Answer: `Received`.
    Receive(u64),
    /// Call this node operation on the consensus state. Answer:
    /// `TimeoutChecked` for `CheckTimeoutExpired`, else `Completed`.
    Invoke(NodeOp),
    /// Read the monotonic clock. Answer: `Clock`.
    ReadClock,
    /// Leave the loop. There is nothing to answer.
    Stop,
}

/// The answer to one event.
#[derive(Debug, PartialEq, Eq)]
pub struct Step {
    /// What to write to the log, if anything.
    pub log: Option<LogEntry>,
    /// Whether the pass of the loop ends here: the caller gives up its
    /// exclusive access to the consensus state, which makes the state
    /// durable, before it carries out `action`.
    pub commit: bool,
    /// What to do next.
    pub action: Action,
}

/// Mathematical model of a [`Step`].
pub struct StepView {
    pub log: Option<LogEntryView>,
    pub commit: bool,
    pub action: Action,
}

impl View for Step {
    type V = StepView;

    open spec fn view(&self) -> StepView {
        StepView { log: log_view(self.log), commit: self.commit, action: self.action }
    }
}

/// Mathematical model of an [`EngineLoop`].
pub struct EngineLoopView {
    pub phase: Phase,
    /// The ticker of block production.
    pub working: TickerView,
    /// The ticker of the backlog.
    pub backlog: TickerView,
    /// The longest wait for an update, in nanoseconds.
    pub message_timeout: u64,
}

impl EngineLoopView {
    /// The same loop in another phase.
    pub open spec fn at(self, phase: Phase) -> EngineLoopView {
        EngineLoopView { phase, ..self }
    }

    /// The step that goes on within the pass: nothing is made durable yet.
    pub open spec fn go_on(self, phase: Phase, log: Option<LogEntryView>, action: Action) -> (
        EngineLoopView,
        StepView,
    ) {
        (self.at(phase), StepView { log, commit: false, action })
    }

    /// The step that ends the pass and waits for the next update.
    pub open spec fn end_pass(self, log: Option<LogEntryView>) -> (EngineLoopView, StepView) {
        (
            self.at(Phase::Receiving),
            StepView { log, commit: true, action: Action::Receive(self.message_timeout) },
        )
    }

    /// The step after the wait on the update stream has ended with
    /// `incoming`. A node operation is called and awaited. An outcome that
    /// needs no call is routed like the result of a call, and the tickers
    /// come next. A stop ends the pass and the loop at once: no ticker is
    /// polled.
    pub open spec fn receive(self, incoming: Incoming) -> (EngineLoopView, StepView) {
        let decision = dispatched(incoming);
        match decision.next {
            Dispatch::Invoke(op) => self.go_on(
                Phase::Dispatching,
                decision.log,
                Action::Invoke(op),
            ),
            Dispatch::Done(res) => self.go_on(
                Phase::WorkingClock,
                if decision.log is Some {
                    decision.log
                } else {
                    result_log(res)
                },
                Action::ReadClock,
            ),
            Dispatch::Stop => (
                self.at(Phase::Terminated),
                StepView { log: decision.log, commit: true, action: Action::Stop },
            ),
        }
    }

    /// The step after the clock was read for the block-production ticker.
    /// Where the ticker fires, the node tries to publish; else the backlog
    /// ticker is next.
    pub open spec fn poll_working(self, now: u64) -> (EngineLoopView, StepView) {
        if self.working.due(now as nat) {
            EngineLoopView { working: self.working.tick(now as nat), ..self }.go_on(
                Phase::Publishing,
                None,
                Action::Invoke(NodeOp::TryPublish),
            )
        } else {
            self.go_on(Phase::BacklogClock, None, Action::ReadClock)
        }
    }

    /// The step after the clock was read for the backlog ticker. Where the
    /// ticker fires, the node goes through its backlog; else the pass ends.
    pub open spec fn poll_backlog(self, now: u64) -> (EngineLoopView, StepView) {
        if self.backlog.due(now as nat) {
            EngineLoopView { backlog: self.backlog.tick(now as nat), ..self }.go_on(
                Phase::RetryingBacklog,
                None,
                Action::Invoke(NodeOp::RetryBacklog),
            )
        } else {
            self.end_pass(None)
        }
    }

    /// The loop after `event` and the answer to it, or `None` where the
    /// event is not the one that the phase waits for.
    ///
    /// One pass of the loop: an update is received and dispatched; its
    /// result is routed to the log; the block-production ticker is polled
    /// and, where it fires, the node tries to publish and is asked whether
    /// its timeout has expired, which starts a view change; the backlog
    /// ticker is polled and, where it fires, the backlog is gone through
    /// again; then the pass ends, and the state is made durable.
    pub open spec fn step(self, event: Event) -> Option<(EngineLoopView, StepView)> {
        match (self.phase, event) {
            (Phase::Receiving, Event::Received(incoming)) => Some(self.receive(incoming)),
            (Phase::Dispatching, Event::Completed(res)) => Some(
                self.go_on(Phase::WorkingClock, result_log(res), Action::ReadClock),
            ),
            (Phase::WorkingClock, Event::Clock(now)) => Some(self.poll_working(now)),
            (Phase::Publishing, Event::Completed(res)) => Some(
                self.go_on(
                    Phase::CheckingTimeout,
                    result_log(res),
                    Action::Invoke(NodeOp::CheckTimeoutExpired),
                ),
            ),
            (Phase::CheckingTimeout, Event::TimeoutChecked(expired)) => Some(
                if expired {
                    self.go_on(
                        Phase::ChangingView,
                        None,
                        Action::Invoke(NodeOp::StartViewChange),
                    )
                } else {
                    self.go_on(Phase::BacklogClock, None, Action::ReadClock)
                },
            ),
            (Phase::ChangingView, Event::Completed(res)) => Some(
                self.go_on(Phase::BacklogClock, result_log(res), Action::ReadClock),
            ),
            (Phase::BacklogClock, Event::Clock(now)) => Some(self.poll_backlog(now)),
            (Phase::RetryingBacklog, Event::Completed(res)) => Some(
                self.end_pass(result_log(res)),
            ),
            _ => None,
        }
    }
}

impl EngineLoopView {
    /// The loop after the events `events`, reported in order. An event that
    /// is refused changes nothing.
    pub open spec fn run(self, events: Seq<Event>) -> EngineLoopView
        decreases events.len(),
    {
        if events.len() == 0 {
            self
        } else {
            let next = match self.step(events[0]) {
                Some((next, _)) => next,
                None => self,
            };
            next.run(events.drop_first())
        }
    }

    /// The answers to the events `events`, reported in order. An event that
    /// is refused has no answer.
    pub open spec fn answers(self, events: Seq<Event>) -> Seq<StepView>
        decreases events.len(),
    {
        if events.len() == 0 {
            Seq::empty()
        } else {
            match self.step(events[0]) {
                Some((next, answer)) => seq![answer] + next.answers(events.drop_first()),
                None => self.answers(events.drop_first()),
            }
        }
    }
}

/// The place of a phase within one pass of the loop: the update comes
/// first, then the block-production ticker with what it sets off, then the
/// backlog ticker.
pub open spec fn place_in_pass(phase: Phase) -> nat {
    match phase {
        Phase::Receiving => 0,
        Phase::Dispatching => 1,
        Phase::WorkingClock => 2,
        Phase::Publishing => 3,
        Phase::CheckingTimeout => 4,
        Phase::ChangingView => 5,
        Phase::BacklogClock => 6,
        Phase::RetryingBacklog => 7,
        Phase::Terminated => 8,
    }
}

/// Whether the event is a shutdown or the loss of the update stream.
pub open spec fn ends_loop(event: Event) -> bool {
    event == Event::Received(Incoming::Update(Update::Shutdown)) || event == Event::Received(
        Incoming::Disconnected,
    )
}

/// Whether the result is one of the failures that normal operation brings.
pub open spec fn is_transient(res: Result<(), PbftError>) -> bool {
    res matches Err(error) && (error is WrongNumMessages || error is NotReadyForMessage)
}

/// The loop that has ended refuses every event.
pub proof fn lemma_terminated_refuses(engine: EngineLoopView, event: Event)
    requires
        engine.phase == Phase::Terminated,
    ensures
        engine.step(event) is None,
{
}

/// Once the loop has ended it stays as it is and answers nothing, whatever
/// is reported to it.
pub proof fn lemma_terminated_is_absorbing(engine: EngineLoopView, events: Seq<Event>)
    requires
        engine.phase == Phase::Terminated,
    ensures
        engine.run(events) == engine,
        engine.answers(events) == Seq::<StepView>::empty(),
    decreases events.len(),
{
    if events.len() > 0 {
        lemma_terminated_is_absorbing(engine, events.drop_first());
    }
}

/// Events that are reported one run after another are answered as if they
/// were reported in one run.
pub proof fn lemma_run_in_two_parts(engine: EngineLoopView, first: Seq<Event>, then: Seq<Event>)
    ensures
        engine.run(first + then) == engine.run(first).run(then),
        engine.answers(first + then) == engine.answers(first) + engine.run(first).answers(then),
    decreases first.len(),
{
    if first.len() == 0 {
        assert(first + then =~= then);
        assert(engine.answers(first) + engine.answers(then) =~= engine.answers(then));
    } else {
        let all = first + then;
        assert(all[0] == first[0]);
        assert(all.drop_first() =~= first.drop_first() + then);
        let next = match engine.step(first[0]) {
            Some((next, _)) => next,
            None => engine,
        };
        lemma_run_in_two_parts(next, first.drop_first(), then);
        match engine.step(first[0]) {
            Some((_, answer)) => {
                assert(seq![answer] + (next.answers(first.drop_first()) + next.run(
                    first.drop_first(),
                ).answers(then)) =~= (seq![answer] + next.answers(first.drop_first()))
                    + next.run(first.drop_first()).answers(then));
            },
            None => {},
        }
    }
}

/// Updates are dispatched in the order of their arrival up to the first
/// shutdown or loss of the stream, and none after it: where the loop waits
/// for an update after the events `before`, the event that ends it is
/// answered with the order to stop, the state is made durable, and whatever
/// is reported `after` that has no answer at all.
pub proof fn lemma_nothing_is_dispatched_after_the_end(
    engine: EngineLoopView,
    before: Seq<Event>,
    end: Event,
    after: Seq<Event>,
)
    requires
        engine.run(before).phase == Phase::Receiving,
        ends_loop(end),
    ensures
        ({
            let events = before + seq![end] + after;
            let log = if end == Event::Received(Incoming::Disconnected) {
                Some(LogEntryView { level: LogLevel::Error, message: disconnected_message() })
            } else {
                None
            };
            &&& engine.run(events).phase == Phase::Terminated
            &&& engine.answers(events) == engine.answers(before) + seq![
                StepView { log, commit: true, action: Action::Stop },
            ]
        }),
{
    let waiting = engine.run(before);
    let (ended, answer) = waiting.step(end).unwrap();
    lemma_run_in_two_parts(engine, before + seq![end], after);
    lemma_run_in_two_parts(engine, before, seq![end]);
    lemma_terminated_is_absorbing(ended, after);
    let last = seq![end];
    let rest = last.drop_first();
    assert(last[0] == end && rest.len() == 0);
    assert(ended.run(rest) == ended);
    assert(ended.answers(rest) =~= Seq::<StepView>::empty());
    assert(waiting.run(last) == ended);
    assert(waiting.answers(last) =~= seq![answer]);
    assert(engine.answers(before + seq![end]) + Seq::<StepView>::empty() =~= engine.answers(
        before + seq![end],
    ));
}

/// The loop ends on a shutdown and on the loss of the update stream, and on
/// nothing else; it is told to stop exactly when it ends. No result of a node
/// operation ends it.
pub proof fn lemma_only_shutdown_and_disconnect_stop(engine: EngineLoopView, event: Event)
    requires
        engine.step(event) is Some,
    ensures
        ({
            let (next, answer) = engine.step(event).unwrap();
            &&& next.phase == Phase::Terminated <==> ends_loop(event)
            &&& answer.action == Action::Stop <==> ends_loop(event)
        }),
{
}

/// Within a pass the loop only moves forward: a step either ends the pass
/// or leads to a later phase of it. So the update is dispatched before the
/// block-production ticker is polled, that ticker and all it sets off come
/// before the backlog ticker, and no pass takes more than eight steps.
pub proof fn lemma_pass_moves_forward(engine: EngineLoopView, event: Event)
    requires
        engine.step(event) is Some,
    ensures
        ({
            let (next, answer) = engine.step(event).unwrap();
            answer.commit || place_in_pass(engine.phase) < place_in_pass(next.phase)
        }),
{
}

/// A step changes nothing but the phase and, where a ticker fires, the last
/// fire of that ticker: the intervals and the receive timeout stay as the
/// loop was started with.
pub proof fn lemma_step_keeps_configuration(engine: EngineLoopView, event: Event)
    requires
        engine.step(event) is Some,
    ensures
        ({
            let (next, _) = engine.step(event).unwrap();
            &&& next.message_timeout == engine.message_timeout
            &&& next.working.interval == engine.working.interval
            &&& next.backlog.interval == engine.backlog.interval
        }),
{
}

/// The state is made durable exactly where a pass of the loop ends: before
/// the next wait for an update, and before the loop stops.
pub proof fn lemma_commit_ends_pass(engine: EngineLoopView, event: Event)
    requires
        engine.step(event) is Some,
    ensures
        ({
            let (next, answer) = engine.step(event).unwrap();
            &&& answer.commit <==> next.phase == Phase::Receiving || next.phase
                == Phase::Terminated
            &&& answer.commit <==> answer.action == Action::Receive(engine.message_timeout)
                || answer.action == Action::Stop
        }),
{
}

/// A failure that normal operation brings is traced and never logged as an
/// error, and the loop goes on after it.
pub proof fn lemma_transient_failure_is_traced(
    engine: EngineLoopView,
    res: Result<(), PbftError>,
)
    requires
        is_transient(res),
        engine.step(Event::Completed(res)) is Some,
    ensures
        ({
            let (next, answer) = engine.step(Event::Completed(res)).unwrap();
            &&& answer.log matches Some(entry) && entry.level == LogLevel::Trace
            &&& next.phase != Phase::Terminated
            &&& answer.action != Action::Stop
        }),
{
}

/// An expired wait is passed over in silence: nothing is logged, no node
/// operation is called, and the tickers come next.
pub proof fn lemma_receive_timeout_is_silent(engine: EngineLoopView)
    requires
        engine.phase == Phase::Receiving,
    ensures
        engine.step(Event::Received(Incoming::Timeout)) == Some(
            engine.go_on(Phase::WorkingClock, None, Action::ReadClock),
        ),
{
}

/// The event loop of the engine as a state machine: it owns the two tickers
/// and knows which answer it waits for.
#[derive(Debug)]
pub struct EngineLoop {
    phase: Phase,
    working_ticker: Ticker,
    backlog_ticker: Ticker,
    message_timeout: u64,
}

impl View for EngineLoop {
    type V = EngineLoopView;

    closed spec fn view(&self) -> EngineLoopView {
        EngineLoopView {
            phase: self.phase,
            working: self.working_ticker@,
            backlog: self.backlog_ticker@,
            message_timeout: self.message_timeout,
        }
    }
}

impl EngineLoop {
    /// The loop at its start, at clock reading `now`: it waits for the first
    /// update. Blocks are published every `block_duration` nanoseconds, the
    /// backlog is gone through every `message_timeout` nanoseconds, and no
    /// wait for an update lasts longer than that.
    pub fn new(block_duration: u64, message_timeout: u64, now: u64) -> (engine: EngineLoop)
        ensures
            engine@ == (EngineLoopView {
                phase: Phase::Receiving,
                working: TickerView { last: now as nat, interval: block_duration as nat },
                backlog: TickerView { last: now as nat, interval: message_timeout as nat },
                message_timeout,
            }),
    {
        EngineLoop {
            phase: Phase::Receiving,
            working_ticker: Ticker::new(block_duration, now),
            backlog_ticker: Ticker::new(message_timeout, now),
            message_timeout,
        }
    }

    /// The phase of the loop.
    pub fn phase(&self) -> (phase: Phase)
        ensures
            phase == self@.phase,
    {
        self.phase
    }

    /// Whether the loop has ended.
    pub fn is_terminated(&self) -> (ended: bool)
        ensures
            ended == (self@.phase == Phase::Terminated),
    {
        self.phase == Phase::Terminated
    }

    /// The longest wait for an update, in nanoseconds.
    pub fn message_timeout(&self) -> (timeout: u64)
        ensures
            timeout == self@.message_timeout,
    {
        self.message_timeout
    }

    /// Takes the answer to the last action and says what to do next. An
    /// event that the phase does not wait for is refused with `None` and
    /// changes nothing; after the loop has ended, that is every event.
    pub fn step(&mut self, event: Event) -> (out: Option<Step>)
        ensures
            match old(self)@.step(event) {
                Some((next, answer)) => out matches Some(step) && step@ == answer && final(self)@
                    == next,
                None => out is None && final(self)@ == old(self)@,
            },
    {
        match (self.phase, event) {
            (Phase::Receiving, Event::Received(incoming)) => {
                let (log, decision) = dispatch(incoming);
                match decision {
                    Dispatch::Invoke(op) => {
                        self.phase = Phase::Dispatching;
                        Some(Step { log, commit: false, action: Action::Invoke(op) })
                    },
                    Dispatch::Done(res) => {
                        let log = match log {
                            Some(entry) => Some(entry),
                            None => handle_pbft_result(res),
                        };
                        self.phase = Phase::WorkingClock;
                        Some(Step { log, commit: false, action: Action::ReadClock })
                    },
                    Dispatch::Stop => {
                        self.phase = Phase::Terminated;
                        Some(Step { log, commit: true, action: Action::Stop })
                    },
                }
            },
            (Phase::Dispatching, Event::Completed(res)) => {
                self.phase = Phase::WorkingClock;
                Some(
                    Step { log: handle_pbft_result(res), commit: false, action: Action::ReadClock },
                )
            },
            (Phase::WorkingClock, Event::Clock(now)) => {
                if self.working_ticker.tick(now) {
                    self.phase = Phase::Publishing;
                    Some(
                        Step {
                            log: None,
                            commit: false,
                            action: Action::Invoke(NodeOp::TryPublish),
                        },
                    )
                } else {
                    self.phase = Phase::BacklogClock;
                    Some(Step { log: None, commit: false, action: Action::ReadClock })
                }
            },
            (Phase::Publishing, Event::Completed(res)) => {
                self.phase = Phase::CheckingTimeout;
                Some(
                    Step {
                        log: handle_pbft_result(res),
                        commit: false,
                        action: Action::Invoke(NodeOp::CheckTimeoutExpired),
                    },
                )
            },
            (Phase::CheckingTimeout, Event::TimeoutChecked(expired)) => {
                if expired {
                    self.phase = Phase::ChangingView;
                    Some(
                        Step {
                            log: None,
                            commit: false,
                            action: Action::Invoke(NodeOp::StartViewChange),
                        },
                    )
                } else {
                    self.phase = Phase::BacklogClock;
                    Some(Step { log: None, commit: false, action: Action::ReadClock })
                }
            },
            (Phase::ChangingView, Event::Completed(res)) => {
                self.phase = Phase::BacklogClock;
                Some(
                    Step { log: handle_pbft_result(res), commit: false, action: Action::ReadClock },
                )
            },
            (Phase::BacklogClock, Event::Clock(now)) => {
                if self.backlog_ticker.tick(now) {
                    self.phase = Phase::RetryingBacklog;
                    Some(
                        Step {
                            log: None,
                            commit: false,
                            action: Action::Invoke(NodeOp::RetryBacklog),
                        },
                    )
                } else {
                    self.phase = Phase::Receiving;
                    Some(
                        Step {
                            log: None,
                            commit: true,
                            action: Action::Receive(self.message_timeout),
                        },
                    )
                }
            },
            (Phase::RetryingBacklog, Event::Completed(res)) => {
                self.phase = Phase::Receiving;
                Some(
                    Step {
                        log: handle_pbft_result(res),
                        commit: true,
                        action: Action::Receive(self.message_timeout),
                    },
                )
            },
            _ => None,
        }
    }
}

/// Whether `index` is the place of `local` in `peers`: the first place at
/// which its identifier stands.
pub open spec fn is_node_id(peers: Seq<PeerId>, local: PeerId, index: int) -> bool {
    &&& 0 <= index < peers.len()
    &&& peers[index]@ == local@
    &&& forall|j: int| 0 <= j < index ==> (#[trigger] peers[j])@ != local@
}

/// Whether two identifiers are the same bytes.
fn same_bytes(a: &Vec<u8>, b: &Vec<u8>) -> (same: bool)
    ensures
        same == (a@ == b@),
{
    if a.len() != b.len() {
        return false;
    }
    let mut i: usize = 0;
    while i < a.len()
        invariant
            a.len() == b.len(),
            i <= a.len(),
            forall|j: int| 0 <= j < i ==> a@[j] == b@[j],
        decreases a.len() - i,
    {
        if a[i] != b[i] {
            return false;
        }
        i += 1;
    }
    assert(a@ =~= b@);
    true
}

/// The index of this node: the place of its own identifier in the ordered
/// list of peers. `None` means that the node is not in the list, and so
/// cannot take part: the engine must not be started.
pub fn node_id(peers: &Vec<PeerId>, local: &PeerId) -> (id: Option<u64>)
    ensures
        match id {
            Some(index) => is_node_id(peers@, *local, index as int),
            None => forall|j: int| 0 <= j < peers@.len() ==> (#[trigger] peers@[j])@ != local@,
        },
{
    let mut index: usize = 0;
    while index < peers.len()
        invariant
            index <= peers.len(),
            forall|j: int| 0 <= j < index ==> (#[trigger] peers@[j])@ != local@,
        decreases peers.len() - index,
    {
        if same_bytes(&peers[index], local) {
            return Some(index as u64);
        }
        index += 1;
    }
    None
}

/// The engine as the validator sees it. It holds nothing until it is started.
#[derive(Debug)]
pub struct PbftEngine {}

impl PbftEngine {
    /// An engine that has not been started.
    pub fn new() -> (engine: PbftEngine) {
        PbftEngine {  }
    }

    /// Starts the event loop at clock reading `now`, with the two intervals
    /// of the configuration in nanoseconds. The first thing to do is to wait
    /// for an update.
    pub fn start(&mut self, block_duration: u64, message_timeout: u64, now: u64) -> (out: (
        EngineLoop,
        Step,
    ))
        ensures
            out.0@ == (EngineLoopView {
                phase: Phase::Receiving,
                working: TickerView { last: now as nat, interval: block_duration as nat },
                backlog: TickerView { last: now as nat, interval: message_timeout as nat },
                message_timeout,
            }),
            out.1@ == (StepView {
                log: None,
                commit: false,
                action: Action::Receive(message_timeout),
            }),
    {
        (
            EngineLoop::new(block_duration, message_timeout, now),
            Step { log: None, commit: false, action: Action::Receive(message_timeout) },
        )
    }
}

impl Default for PbftEngine {
    fn default() -> (engine: PbftEngine) {
        PbftEngine::new()
    }
}

} // verus!
