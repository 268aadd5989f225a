use vstd::prelude::*;
use crate::locator::Located;

verus! {

/// Sensor models the driver can open.
#[derive(Clone, Copy, Debug, PartialEq, Eq, Structural)]
pub enum SensorModel {
    Pfs055Ya251U6,
}

/// A startup fault: the process reports it and stops.
#[derive(Debug)]
pub enum Fatal {
    /// No port carries the sensor's hardware identity.
    NotFound,
    /// The host could not list its serial ports.
    DiscoveryFailed(String),
    /// The located port could not be opened as the sensor.
    OpenFailed(String),
}

/// Where the acquisition protocol stands. Each phase awaits the outcome of
/// one action.
#[derive(Debug)]
pub enum Phase {
    /// Awaits the result of locating the sensor.
    Uninitialized,
    /// Awaits the outcome of opening the sensor at `path`.
    Connecting { path: String },
    /// Awaits the end of the settling wait after the connection.
    Settling,
    /// Awaits the calibration read.
    CalibrationRead,
    /// Awaits the end of the zero-offset commit.
    Zeroing,
    /// Awaits the end of a cycle's wait.
    PollWait,
    /// Awaits a cycle's read.
    PollRead,
    /// Awaits the publication of a cycle's reading.
    Publishing,
    /// Stopped by a startup fault.
    Terminated { cause: Fatal },
}

/// The outcome of the action last asked for.
#[derive(Debug)]
pub enum Event {
    Located(Located),
    Opened,
    OpenFailed(String),
    Waited,
    /// The read produced a reading, which the caller holds.
    ReadOk,
    ReadFailed(String),
    Zeroed,
    Published,
    PublishFailed(String),
}

/// What the caller does next, and then reports as an [`Event`].
#[derive(Debug)]
pub enum Action {
    /// Enumerate the host's serial ports and locate the sensor.
    Locate,
    /// Open a connection to the sensor of `model` at `path`.
    Open { model: SensorModel, path: String },
    /// Sleep for one poll interval of the open connection.
    Wait,
    /// Request one reading from the sensor.
    Read,
    /// Commit the sensor's current reading as its zero offset.
    Zero,
    /// Hand the reading just read to the publish sink.
    Publish,
    /// Report the fault and stop.
    Exit(Fatal),
    /// The event answered no pending action; nothing changes.
    Nothing,
}

/// A non-fatal fault absorbed by the protocol, to be logged.
#[derive(Debug)]
pub enum Notice {
    Silent,
    /// The settling read before zeroing failed; zeroing goes ahead.
    CalibrationReadFailed(String),
    /// A steady-state read failed; the next cycle goes ahead.
    ReadFailed(String),
    /// The sink refused a reading; the reading is dropped.
    PublishFailed(String),
}

/// What one transition asks of the caller.
#[derive(Debug)]
pub struct Step {
    pub action: Action,
    pub notice: Notice,
}

/// A step that asks for `action` and has nothing to log.
pub open spec fn quiet(action: Action) -> Step {
    Step { action, notice: Notice::Silent }
}

/// The protocol's transition table: from a phase and the outcome of the
/// awaited action to the next phase and what to do next. An event that
/// answers no pending action leaves the phase as it is.
pub open spec fn transition(m: SensorModel, p: Phase, e: Event) -> (Phase, Step) {
    match (p, e) {
        (Phase::Uninitialized, Event::Located(Located::Found(path))) => (
            Phase::Connecting { path },
            quiet(Action::Open { model: m, path }),
        ),
        (Phase::Uninitialized, Event::Located(Located::NotFound)) => (
            Phase::Terminated { cause: Fatal::NotFound },
            quiet(Action::Exit(Fatal::NotFound)),
        ),
        (Phase::Uninitialized, Event::Located(Located::DiscoveryFailed(err))) => (
            Phase::Terminated { cause: Fatal::DiscoveryFailed(err.message) },
            quiet(Action::Exit(Fatal::DiscoveryFailed(err.message))),
        ),
        (Phase::Connecting { .. }, Event::Opened) => (Phase::Settling, quiet(Action::Wait)),
        (Phase::Connecting { .. }, Event::OpenFailed(msg)) => (
            Phase::Terminated { cause: Fatal::OpenFailed(msg) },
            quiet(Action::Exit(Fatal::OpenFailed(msg))),
        ),
        (Phase::Settling, Event::Waited) => (Phase::CalibrationRead, quiet(Action::Read)),
        (Phase::CalibrationRead, Event::ReadOk) => (Phase::Zeroing, quiet(Action::Zero)),
        (Phase::CalibrationRead, Event::ReadFailed(msg)) => (
            Phase::Zeroing,
            Step { action: Action::Zero, notice: Notice::CalibrationReadFailed(msg) },
        ),
        (Phase::Zeroing, Event::Zeroed) => (Phase::PollWait, quiet(Action::Wait)),
        (Phase::PollWait, Event::Waited) => (Phase::PollRead, quiet(Action::Read)),
        (Phase::PollRead, Event::ReadOk) => (Phase::Publishing, quiet(Action::Publish)),
        (Phase::PollRead, Event::ReadFailed(msg)) => (
            Phase::PollWait,
            Step { action: Action::Wait, notice: Notice::ReadFailed(msg) },
        ),
        (Phase::Publishing, Event::Published) => (Phase::PollWait, quiet(Action::Wait)),
        (Phase::Publishing, Event::PublishFailed(msg)) => (
            Phase::PollWait,
            Step { action: Action::Wait, notice: Notice::PublishFailed(msg) },
        ),
        (p, _) => (p, quiet(Action::Nothing)),
    }
}

/// The acquisition protocol for one sensor.
#[derive(Debug)]
pub struct Acquisition {
    pub model: SensorModel,
    pub phase: Phase,
}

impl Acquisition {
    /// A protocol that has not located its sensor yet, with the first action
    /// to take: locating it.
    pub fn start(model: SensorModel) -> (r: (Acquisition, Action))
        ensures
            r.0.model == model,
            r.0.phase is Uninitialized,
            r.1 is Locate,
    {
        (Acquisition { model, phase: Phase::Uninitialized }, Action::Locate)
    }

    /// Advances the protocol by the outcome `event` of the last action.
    pub fn step(&mut self, event: Event) -> (s: Step)
        ensures
            final(self).model == old(self).model,
            final(self).phase == transition(old(self).model, old(self).phase, event).0,
            s == transition(old(self).model, old(self).phase, event).1,
    {
        let m = self.model;
        match (&self.phase, event) {
            (Phase::Uninitialized, Event::Located(Located::Found(path))) => {
                let open_path = path.clone();
                self.phase = Phase::Connecting { path };
                Step { action: Action::Open { model: m, path: open_path }, notice: Notice::Silent }
            },
            (Phase::Uninitialized, Event::Located(Located::NotFound)) => {
                self.phase = Phase::Terminated { cause: Fatal::NotFound };
                Step { action: Action::Exit(Fatal::NotFound), notice: Notice::Silent }
            },
            (Phase::Uninitialized, Event::Located(Located::DiscoveryFailed(err))) => {
                let msg = err.message.clone();
                self.phase = Phase::Terminated { cause: Fatal::DiscoveryFailed(err.message) };
                Step { action: Action::Exit(Fatal::DiscoveryFailed(msg)), notice: Notice::Silent }
            },
            (Phase::Connecting { .. }, Event::Opened) => {
                self.phase = Phase::Settling;
                Step { action: Action::Wait, notice: Notice::Silent }
            },
            (Phase::Connecting { .. }, Event::OpenFailed(msg)) => {
                let cause = msg.clone();
                self.phase = Phase::Terminated { cause: Fatal::OpenFailed(cause) };
                Step { action: Action::Exit(Fatal::OpenFailed(msg)), notice: Notice::Silent }
            },
            (Phase::Settling, Event::Waited) => {
                self.phase = Phase::CalibrationRead;
                Step { action: Action::Read, notice: Notice::Silent }
            },
            (Phase::CalibrationRead, Event::ReadOk) => {
                self.phase = Phase::Zeroing;
                Step { action: Action::Zero, notice: Notice::Silent }
            },
            (Phase::CalibrationRead, Event::ReadFailed(msg)) => {
                self.phase = Phase::Zeroing;
                Step { action: Action::Zero, notice: Notice::CalibrationReadFailed(msg) }
            },
            (Phase::Zeroing, Event::Zeroed) => {
                self.phase = Phase::PollWait;
                Step { action: Action::Wait, notice: Notice::Silent }
            },
            (Phase::PollWait, Event::Waited) => {
                self.phase = Phase::PollRead;
                Step { action: Action::Read, notice: Notice::Silent }
            },
            (Phase::PollRead, Event::ReadOk) => {
                self.phase = Phase::Publishing;
                Step { action: Action::Publish, notice: Notice::Silent }
            },
            (Phase::PollRead, Event::ReadFailed(msg)) => {
                self.phase = Phase::PollWait;
                Step { action: Action::Wait, notice: Notice::ReadFailed(msg) }
            },
            (Phase::Publishing, Event::Published) => {
                self.phase = Phase::PollWait;
                Step { action: Action::Wait, notice: Notice::Silent }
            },
            (Phase::Publishing, Event::PublishFailed(msg)) => {
                self.phase = Phase::PollWait;
                Step { action: Action::Wait, notice: Notice::PublishFailed(msg) }
            },
            (_, _) => Step { action: Action::Nothing, notice: Notice::Silent },
        }
    }
}

/// The phase reached from `p` after the events `evs`, in order.
pub open spec fn run_phase(m: SensorModel, p: Phase, evs: Seq<Event>) -> Phase
    decreases evs.len(),
{
    if evs.len() == 0 {
        p
    } else {
        run_phase(m, transition(m, p, evs[0]).0, evs.drop_first())
    }
}

/// How many times the zero offset is committed while the events `evs` are
/// applied to `p`.
pub open spec fn zero_count(m: SensorModel, p: Phase, evs: Seq<Event>) -> nat
    decreases evs.len(),
{
    if evs.len() == 0 {
        0
    } else {
        (if transition(m, p, evs[0]).1.action is Zero { 1nat } else { 0nat }) + zero_count(
            m,
            transition(m, p, evs[0]).0,
            evs.drop_first(),
        )
    }
}

/// The phases of the steady-state polling cycle.
pub open spec fn is_polling(p: Phase) -> bool {
    p is PollWait || p is PollRead || p is Publishing
}

/// The zero offset has been asked for in phase `p` or before it.
pub open spec fn zero_committed(p: Phase) -> bool {
    p is Zeroing || is_polling(p)
}

/// One for true, zero for false.
pub open spec fn indicator(b: bool) -> nat {
    if b { 1 } else { 0 }
}

/// Along any run, the zero offset is asked for exactly when the run moves
/// from a phase before the commitment to one after it.
pub proof fn lemma_zero_count_tracks_commitment(m: SensorModel, p: Phase, evs: Seq<Event>)
    ensures
        zero_count(m, p, evs) + indicator(zero_committed(p)) == indicator(
            zero_committed(run_phase(m, p, evs)),
        ),
    decreases evs.len(),
{
    if evs.len() > 0 {
        lemma_zero_count_tracks_commitment(m, transition(m, p, evs[0]).0, evs.drop_first());
    }
}

/// From startup, whatever the events, the zero offset is committed at most
/// once, and exactly once by the time polling runs; the calibration read's
/// outcome, success or failure, is followed by the commitment alike.
pub proof fn lemma_zero_committed_once(m: SensorModel, evs: Seq<Event>, msg: String)
    ensures
        zero_count(m, Phase::Uninitialized, evs) <= 1,
        is_polling(run_phase(m, Phase::Uninitialized, evs)) ==> zero_count(
            m,
            Phase::Uninitialized,
            evs,
        ) == 1,
        transition(m, Phase::CalibrationRead, Event::ReadOk).1.action is Zero,
        transition(m, Phase::CalibrationRead, Event::ReadFailed(msg)).1.action is Zero,
        transition(m, Phase::CalibrationRead, Event::ReadFailed(msg)).0 == transition(
            m,
            Phase::CalibrationRead,
            Event::ReadOk,
        ).0,
{
    lemma_zero_count_tracks_commitment(m, Phase::Uninitialized, evs);
}

/// A failed steady-state read leaves the protocol where a completed cycle
/// leaves it: waiting for the next cycle, whose wait leads to a new read.
pub proof fn lemma_read_failure_keeps_polling(m: SensorModel, msg: String)
    ensures
        transition(m, Phase::PollRead, Event::ReadFailed(msg)).0 == transition(
            m,
            transition(m, Phase::PollRead, Event::ReadOk).0,
            Event::Published,
        ).0,
        transition(m, Phase::PollRead, Event::ReadFailed(msg)).1.action is Wait,
        transition(
            m,
            transition(m, Phase::PollRead, Event::ReadFailed(msg)).0,
            Event::Waited,
        ).1.action is Read,
{
}

/// A failed publication changes nothing that a successful one would not:
/// the next phase and action are the same, and the next cycle reads on
/// schedule.
pub proof fn lemma_publish_failure_isolated(m: SensorModel, msg: String)
    ensures
        transition(m, Phase::Publishing, Event::PublishFailed(msg)).0 == transition(
            m,
            Phase::Publishing,
            Event::Published,
        ).0,
        transition(m, Phase::Publishing, Event::PublishFailed(msg)).1.action == transition(
            m,
            Phase::Publishing,
            Event::Published,
        ).1.action,
        transition(
            m,
            transition(m, Phase::Publishing, Event::PublishFailed(msg)).0,
            Event::Waited,
        ).1.action is Read,
{
}

/// Steady-state polling never ends by itself: from any polling phase, every
/// sequence of events keeps the protocol polling.
pub proof fn lemma_polling_is_terminal(m: SensorModel, p: Phase, evs: Seq<Event>)
    requires
        is_polling(p),
    ensures
        is_polling(run_phase(m, p, evs)),
    decreases evs.len(),
{
    if evs.len() > 0 {
        lemma_polling_is_terminal(m, transition(m, p, evs[0]).0, evs.drop_first());
    }
}

} // verus!
