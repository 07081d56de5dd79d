//! The reconnect job as a state machine.
//!
//! A job logs in, disconnects the WAN link, lets the outage take effect and
//! connects again. The machine decides; its caller performs each [`Action`]
//! and reports what happened as the next [`Event`]. A failure at any step
//! ends the job with that failure's text as its terminal message.

use vstd::prelude::*;

verus! {

/// Seconds to wait before the job touches the device.
pub const SETTLE_DELAY: u64 = 1;

/// Seconds to wait between the disconnect and the connect.
pub const OUTAGE_DELAY: u64 = 5;

/// Terminal message of a job whose every step succeeded.
pub open spec fn done_text() -> Seq<char> {
    "Done"@
}

/// What the WAN link is told to do.
#[derive(Clone, Copy, Debug, PartialEq, Eq, Structural)]
pub enum Operation {
    Connect,
    Disconnect,
}

impl Operation {
    /// The operation's name on the wire.
    pub open spec fn text(self) -> Seq<char> {
        match self {
            Operation::Connect => "connect"@,
            Operation::Disconnect => "disconnect"@,
        }
    }

    /// The operation's name on the wire.
    pub fn name(self) -> (r: &'static str)
        ensures
            r@ == self.text(),
    {
        match self {
            Operation::Connect => "connect",
            Operation::Disconnect => "disconnect",
        }
    }
}

/// Where a job stands.
#[derive(Debug, PartialEq, Eq)]
pub enum Phase {
    /// Waiting out the settle delay.
    Settling,
    /// Waiting for the login's answer.
    LoggingIn,
    /// Waiting for the answer to the disconnect, sent with this token.
    Disconnecting(String),
    /// Waiting out the outage delay, holding the token.
    Waiting(String),
    /// Waiting for the answer to the connect.
    Connecting,
    /// The terminal message has been handed out.
    Finished,
}

/// What the caller reports back.
#[derive(Debug, PartialEq, Eq)]
pub enum Event {
    /// The sleep that was asked for is over.
    Slept,
    /// The login's answer: the session token, or the failure's text.
    LoggedIn(Result<String, String>),
    /// The answer to a WAN switch: success, or the failure's text.
    Switched(Result<(), String>),
}

/// What the caller is to do next.
#[derive(Debug, PartialEq, Eq)]
pub enum Action {
    /// Sleep for this many seconds, then report [`Event::Slept`].
    Sleep(u64),
    /// Log in with this password, then report [`Event::LoggedIn`].
    Login(String),
    /// Switch the WAN link with this token, then report [`Event::Switched`].
    SwitchWan(String, Operation),
    /// Deliver this terminal message to the job's slot. The job is over.
    Deliver(String),
    /// Nothing: the event was not the one the job was waiting for.
    Idle,
}

/// Mathematical value of a [`Phase`].
pub ghost enum PhaseView {
    Settling,
    LoggingIn,
    Disconnecting(Seq<char>),
    Waiting(Seq<char>),
    Connecting,
    Finished,
}

/// Mathematical value of an [`Event`].
pub ghost enum EventView {
    Slept,
    LoggedIn(Result<Seq<char>, Seq<char>>),
    Switched(Result<(), Seq<char>>),
}

/// Mathematical value of an [`Action`].
pub ghost enum ActionView {
    Sleep(u64),
    Login(Seq<char>),
    SwitchWan(Seq<char>, Operation),
    Deliver(Seq<char>),
    Idle,
}

/// Mathematical value of a [`Job`].
pub ghost struct JobView {
    pub password: Seq<char>,
    pub phase: PhaseView,
}

impl View for Phase {
    type V = PhaseView;

    open spec fn view(&self) -> PhaseView {
        match self {
            Phase::Settling => PhaseView::Settling,
            Phase::LoggingIn => PhaseView::LoggingIn,
            Phase::Disconnecting(stok) => PhaseView::Disconnecting(stok@),
            Phase::Waiting(stok) => PhaseView::Waiting(stok@),
            Phase::Connecting => PhaseView::Connecting,
            Phase::Finished => PhaseView::Finished,
        }
    }
}

impl View for Event {
    type V = EventView;

    open spec fn view(&self) -> EventView {
        match self {
            Event::Slept => EventView::Slept,
            Event::LoggedIn(Ok(stok)) => EventView::LoggedIn(Ok(stok@)),
            Event::LoggedIn(Err(e)) => EventView::LoggedIn(Err(e@)),
            Event::Switched(Ok(_)) => EventView::Switched(Ok(())),
            Event::Switched(Err(e)) => EventView::Switched(Err(e@)),
        }
    }
}

impl View for Action {
    type V = ActionView;

    open spec fn view(&self) -> ActionView {
        match self {
            Action::Sleep(seconds) => ActionView::Sleep(*seconds),
            Action::Login(password) => ActionView::Login(password@),
            Action::SwitchWan(stok, operation) => ActionView::SwitchWan(stok@, *operation),
            Action::Deliver(message) => ActionView::Deliver(message@),
            Action::Idle => ActionView::Idle,
        }
    }
}

/// A job that has just been started, and the action it begins with.
pub open spec fn started(password: Seq<char>) -> (JobView, ActionView) {
    (JobView { password, phase: PhaseView::Settling }, ActionView::Sleep(SETTLE_DELAY))
}

/// The job after `event`, and the action it asks for.
///
/// An event that the job is not waiting for changes nothing and is answered
/// by [`ActionView::Idle`]; so is every event once the job is finished.
pub open spec fn next(job: JobView, event: EventView) -> (JobView, ActionView) {
    let password = job.password;
    match (job.phase, event) {
        (PhaseView::Settling, EventView::Slept) => (
            JobView { password, phase: PhaseView::LoggingIn },
            ActionView::Login(password),
        ),
        (PhaseView::LoggingIn, EventView::LoggedIn(Ok(stok))) => (
            JobView { password, phase: PhaseView::Disconnecting(stok) },
            ActionView::SwitchWan(stok, Operation::Disconnect),
        ),
        (PhaseView::LoggingIn, EventView::LoggedIn(Err(e))) => (
            JobView { password, phase: PhaseView::Finished },
            ActionView::Deliver(e),
        ),
        (PhaseView::Disconnecting(stok), EventView::Switched(Ok(_))) => (
            JobView { password, phase: PhaseView::Waiting(stok) },
            ActionView::Sleep(OUTAGE_DELAY),
        ),
        (PhaseView::Disconnecting(_), EventView::Switched(Err(e))) => (
            JobView { password, phase: PhaseView::Finished },
            ActionView::Deliver(e),
        ),
        (PhaseView::Waiting(stok), EventView::Slept) => (
            JobView { password, phase: PhaseView::Connecting },
            ActionView::SwitchWan(stok, Operation::Connect),
        ),
        (PhaseView::Connecting, EventView::Switched(Ok(_))) => (
            JobView { password, phase: PhaseView::Finished },
            ActionView::Deliver(done_text()),
        ),
        (PhaseView::Connecting, EventView::Switched(Err(e))) => (
            JobView { password, phase: PhaseView::Finished },
            ActionView::Deliver(e),
        ),
        _ => (job, ActionView::Idle),
    }
}

/// A reconnect job.
#[derive(Debug)]
pub struct Job {
    password: String,
    phase: Phase,
}

impl View for Job {
    type V = JobView;

    closed spec fn view(&self) -> JobView {
        JobView { password: self.password@, phase: self.phase@ }
    }
}

impl Job {
    /// Starts a job that will log in with `password`, and returns it with its
    /// first action: to sleep for the settle delay.
    pub fn start(password: String) -> (r: (Job, Action))
        ensures
            (r.0@, r.1@) == started(password@),
    {
        (Job { password, phase: Phase::Settling }, Action::Sleep(SETTLE_DELAY))
    }

    /// Whether the job has handed out its terminal message.
    pub fn is_finished(&self) -> (r: bool)
        ensures
            r == (self@.phase == PhaseView::Finished),
    {
        match self.phase {
            Phase::Finished => true,
            _ => false,
        }
    }

    /// Takes `event` and returns the job after it with the action to perform.
    pub fn step(self, event: Event) -> (r: (Job, Action))
        ensures
            (r.0@, r.1@) == next(self@, event@),
    {
        let Job { password, phase } = self;
        match phase {
            Phase::Settling => match event {
                Event::Slept => {
                    let login = password.clone();
                    (Job { password, phase: Phase::LoggingIn }, Action::Login(login))
                },
                _ => (Job { password, phase: Phase::Settling }, Action::Idle),
            },
            Phase::LoggingIn => match event {
                Event::LoggedIn(Ok(stok)) => {
                    let held = stok.clone();
                    (
                        Job { password, phase: Phase::Disconnecting(held) },
                        Action::SwitchWan(stok, Operation::Disconnect),
                    )
                },
                Event::LoggedIn(Err(e)) => (
                    Job { password, phase: Phase::Finished },
                    Action::Deliver(e),
                ),
                _ => (Job { password, phase: Phase::LoggingIn }, Action::Idle),
            },
            Phase::Disconnecting(stok) => match event {
                Event::Switched(Ok(_)) => (
                    Job { password, phase: Phase::Waiting(stok) },
                    Action::Sleep(OUTAGE_DELAY),
                ),
                Event::Switched(Err(e)) => (
                    Job { password, phase: Phase::Finished },
                    Action::Deliver(e),
                ),
                _ => (Job { password, phase: Phase::Disconnecting(stok) }, Action::Idle),
            },
            Phase::Waiting(stok) => match event {
                Event::Slept => (
                    Job { password, phase: Phase::Connecting },
                    Action::SwitchWan(stok, Operation::Connect),
                ),
                _ => (Job { password, phase: Phase::Waiting(stok) }, Action::Idle),
            },
            Phase::Connecting => match event {
                Event::Switched(Ok(_)) => (
                    Job { password, phase: Phase::Finished },
                    Action::Deliver(String::from_str("Done")),
                ),
                Event::Switched(Err(e)) => (
                    Job { password, phase: Phase::Finished },
                    Action::Deliver(e),
                ),
                _ => (Job { password, phase: Phase::Connecting }, Action::Idle),
            },
            Phase::Finished => (Job { password, phase: Phase::Finished }, Action::Idle),
        }
    }
}

/// The terminal message of a job whose login, disconnect and connect were
/// answered by `login`, `disconnect` and `connect`: the first failure's text,
/// or "Done" when none failed. Later answers are not looked at.
pub open spec fn terminal_message(
    login: Result<Seq<char>, Seq<char>>,
    disconnect: Result<(), Seq<char>>,
    connect: Result<(), Seq<char>>,
) -> Seq<char> {
    match login {
        Err(e) => e,
        Ok(_) => match disconnect {
            Err(e) => e,
            Ok(_) => match connect {
                Err(e) => e,
                Ok(_) => done_text(),
            },
        },
    }
}

/// The job after the events `events` in turn, and the actions it asked for.
pub open spec fn run(job: JobView, events: Seq<EventView>) -> (JobView, Seq<ActionView>)
    decreases events.len(),
{
    if events.len() == 0 {
        (job, Seq::empty())
    } else {
        let before = run(job, events.drop_last());
        let step = next(before.0, events.last());
        (step.0, before.1.push(step.1))
    }
}

/// How many of `actions` deliver a terminal message.
pub open spec fn deliveries(actions: Seq<ActionView>) -> nat
    decreases actions.len(),
{
    if actions.len() == 0 {
        0
    } else {
        deliveries(actions.drop_last()) + if actions.last() is Deliver {
            1nat
        } else {
            0nat
        }
    }
}

/// How many of `actions` switch the WAN link to `operation`.
pub open spec fn switches(actions: Seq<ActionView>, operation: Operation) -> nat
    decreases actions.len(),
{
    if actions.len() == 0 {
        0
    } else {
        switches(actions.drop_last(), operation) + if actions.last() matches ActionView::SwitchWan(
            _,
            o,
        ) && o == operation {
            1nat
        } else {
            0nat
        }
    }
}

/// A finished job stays finished and asks for nothing more, whatever it is
/// told.
pub proof fn lemma_finished_is_final(job: JobView, event: EventView)
    requires
        job.phase == PhaseView::Finished,
    ensures
        next(job, event) == (job, ActionView::Idle),
{
}

/// The step that finishes a job is the step that delivers: a job is finished
/// after a step exactly if it was finished before or the step's action is a
/// delivery, and a finished job delivers nothing.
pub proof fn lemma_delivery_finishes(job: JobView, event: EventView)
    ensures
        next(job, event).0.password == job.password,
        (next(job, event).0.phase == PhaseView::Finished) <==> (job.phase == PhaseView::Finished
            || next(job, event).1 is Deliver),
        job.phase == PhaseView::Finished ==> !(next(job, event).1 is Deliver),
{
}

/// Over any sequence of events a job delivers at most one terminal message:
/// none while it is not finished, exactly one once it is.
pub proof fn lemma_one_terminal_message(password: Seq<char>, events: Seq<EventView>)
    ensures
        deliveries(run(started(password).0, events).1) == if run(
            started(password).0,
            events,
        ).0.phase == PhaseView::Finished {
            1nat
        } else {
            0nat
        },
    decreases events.len(),
{
    let job = started(password).0;
    if events.len() > 0 {
        lemma_one_terminal_message(password, events.drop_last());
        let before = run(job, events.drop_last());
        let step = next(before.0, events.last());
        lemma_delivery_finishes(before.0, events.last());
        assert(before.1.push(step.1).drop_last() =~= before.1);
        assert(before.1.push(step.1).last() == step.1);
    }
}

/// A job whose every step succeeds asks, in this order, for the settle
/// delay, the login, the disconnect, the outage delay and the connect, and
/// then delivers "Done".
pub proof fn lemma_success_delivers_done(password: Seq<char>, stok: Seq<char>)
    ensures
        ({
            let s0 = started(password);
            let s1 = next(s0.0, EventView::Slept);
            let s2 = next(s1.0, EventView::LoggedIn(Ok(stok)));
            let s3 = next(s2.0, EventView::Switched(Ok(())));
            let s4 = next(s3.0, EventView::Slept);
            let s5 = next(s4.0, EventView::Switched(Ok(())));
            &&& s0.1 == ActionView::Sleep(SETTLE_DELAY)
            &&& s1.1 == ActionView::Login(password)
            &&& s2.1 == ActionView::SwitchWan(stok, Operation::Disconnect)
            &&& s3.1 == ActionView::Sleep(OUTAGE_DELAY)
            &&& s4.1 == ActionView::SwitchWan(stok, Operation::Connect)
            &&& s5.1 == ActionView::Deliver(done_text())
            &&& s5.0.phase == PhaseView::Finished
        }),
{
}

/// A failed login ends the job with the failure's text: nothing is sent to
/// the WAN link.
pub proof fn lemma_login_failure_is_terminal(
    password: Seq<char>,
    error: Seq<char>,
    later: Seq<EventView>,
)
    ensures
        ({
            let s1 = next(started(password).0, EventView::Slept);
            let s2 = next(s1.0, EventView::LoggedIn(Err(error)));
            &&& s2.1 == ActionView::Deliver(error)
            &&& s2.0.phase == PhaseView::Finished
            &&& run(s2.0, later).0 == s2.0
            &&& switches(run(s2.0, later).1, Operation::Disconnect) == 0
            &&& switches(run(s2.0, later).1, Operation::Connect) == 0
        }),
{
    let s1 = next(started(password).0, EventView::Slept);
    let s2 = next(s1.0, EventView::LoggedIn(Err(error)));
    lemma_finished_runs_idle(s2.0, later);
}

/// A failed disconnect ends the job with the failure's text, and the connect
/// is never asked for, whatever the job is told afterwards.
pub proof fn lemma_disconnect_failure_is_terminal(
    password: Seq<char>,
    stok: Seq<char>,
    error: Seq<char>,
    later: Seq<EventView>,
)
    ensures
        ({
            let s1 = next(started(password).0, EventView::Slept);
            let s2 = next(s1.0, EventView::LoggedIn(Ok(stok)));
            let s3 = next(s2.0, EventView::Switched(Err(error)));
            &&& s2.1 == ActionView::SwitchWan(stok, Operation::Disconnect)
            &&& s3.1 == ActionView::Deliver(error)
            &&& s3.1 == ActionView::Deliver(terminal_message(Ok(stok), Err(error), Ok(())))
            &&& s3.0.phase == PhaseView::Finished
            &&& run(s3.0, later).0 == s3.0
            &&& switches(run(s3.0, later).1, Operation::Connect) == 0
        }),
{
    let s1 = next(started(password).0, EventView::Slept);
    let s2 = next(s1.0, EventView::LoggedIn(Ok(stok)));
    let s3 = next(s2.0, EventView::Switched(Err(error)));
    lemma_finished_runs_idle(s3.0, later);
}

/// Whatever the device answers, the job delivers what [`terminal_message`]
/// says, at the step that takes the first failure or else the connect's
/// success; what it is told after that step is met by
/// [`ActionView::Idle`].
pub proof fn lemma_terminal_message(
    password: Seq<char>,
    login: Result<Seq<char>, Seq<char>>,
    disconnect: Result<(), Seq<char>>,
    connect: Result<(), Seq<char>>,
)
    ensures
        ({
            let message = ActionView::Deliver(terminal_message(login, disconnect, connect));
            let s1 = next(started(password).0, EventView::Slept);
            let s2 = next(s1.0, EventView::LoggedIn(login));
            let s3 = next(s2.0, EventView::Switched(disconnect));
            let s4 = next(s3.0, EventView::Slept);
            let s5 = next(s4.0, EventView::Switched(connect));
            &&& s5.0.phase == PhaseView::Finished
            &&& match login {
                Err(_) => s2.1 == message && s3.1 == ActionView::Idle && s4.1
                    == ActionView::Idle && s5.1 == ActionView::Idle,
                Ok(stok) => s2.1 == ActionView::SwitchWan(stok, Operation::Disconnect)
                    && match disconnect {
                    Err(_) => s3.1 == message && s4.1 == ActionView::Idle && s5.1
                        == ActionView::Idle,
                    Ok(_) => s3.1 == ActionView::Sleep(OUTAGE_DELAY) && s4.1
                        == ActionView::SwitchWan(stok, Operation::Connect) && s5.1 == message,
                },
            }
        }),
{
}

/// Whatever a finished job is told, it stays as it is and asks for no switch
/// of the WAN link and no delivery.
pub proof fn lemma_finished_runs_idle(job: JobView, events: Seq<EventView>)
    requires
        job.phase == PhaseView::Finished,
    ensures
        run(job, events).0 == job,
        deliveries(run(job, events).1) == 0,
        switches(run(job, events).1, Operation::Connect) == 0,
        switches(run(job, events).1, Operation::Disconnect) == 0,
    decreases events.len(),
{
    if events.len() > 0 {
        lemma_finished_runs_idle(job, events.drop_last());
        let before = run(job, events.drop_last());
        let step = next(before.0, events.last());
        assert(before.1.push(step.1).drop_last() =~= before.1);
        assert(before.1.push(step.1).last() == step.1);
    }
}

} // verus!
