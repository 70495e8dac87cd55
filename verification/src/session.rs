//! One polling session: the decisions taken between two device reads.
//!
//! The session holds what was seen and sent last. The caller owns the device
//! and the client connection: it reads a report, samples the cancellation
//! signal, calls [`Session::step`] and performs the action that comes back.

use vstd::prelude::*;
use crate::axis::{
    normalise_pedal_value, normalise_steer_value, pedal_axis, steering_axis, Axis,
};
use crate::delta::{compare_byte_arrays, differing_positions, has_changed};
use crate::message::{format_update, update_text};
use crate::policy::{is_significant, significant};

verus! {

/// The number of bytes of one device report.
pub const REPORT_LEN: usize = 29;

/// The offset of the steering byte in a report.
pub const STEERING_OFFSET: usize = 3;

/// The offset of the brake byte in a report.
pub const BRAKE_OFFSET: usize = 17;

/// The offset of the gas byte in a report.
pub const GAS_OFFSET: usize = 18;

/// Where a session stands in its life.
#[derive(Clone, Copy, Debug, PartialEq, Eq, Structural)]
pub enum Phase {
    /// Reports are being processed.
    Running,
    /// The client went away; nothing more is sent.
    Cancelled,
    /// A device read or a send failed; nothing more is sent.
    Ended,
}

/// The state of one session.
#[derive(Clone, Copy, Debug)]
pub struct Session {
    pub phase: Phase,
    /// No report has been processed yet.
    pub first_read: bool,
    /// The report processed last; all zero before the first one.
    pub last_report: [u8; REPORT_LEN],
    /// The gas byte transmitted last.
    pub last_gas: u8,
    /// The brake byte transmitted last.
    pub last_brake: u8,
}

/// One turn of the polling loop: the report that was read and whether
/// cancellation had been requested by the time the read returned.
#[derive(Clone, Copy, Debug)]
pub struct Poll {
    pub report: [u8; REPORT_LEN],
    pub cancel_requested: bool,
}

/// What the caller does after a step.
#[derive(Debug)]
pub enum Action {
    /// Leave the loop: the session is over.
    Stop,
    /// The report repeats the previous one: nothing to do.
    Skip,
    /// The report is new but the pedals moved too little: nothing to send.
    Hold,
    /// Send this text to the client.
    Send(String),
}

/// An [`Action`] with its message as a sequence of characters.
pub enum ActionView {
    Stop,
    Skip,
    Hold,
    Send(Seq<char>),
}

impl View for Action {
    type V = ActionView;

    open spec fn view(&self) -> ActionView {
        match self {
            Action::Stop => ActionView::Stop,
            Action::Skip => ActionView::Skip,
            Action::Hold => ActionView::Hold,
            Action::Send(text) => ActionView::Send(text@),
        }
    }
}

/// The state in which every session starts.
pub open spec fn initial(s: Session) -> bool {
    &&& s.phase == Phase::Running
    &&& s.first_read
    &&& s.last_report@ == Seq::new(REPORT_LEN as nat, |i: int| 0u8)
    &&& s.last_gas == 0
    &&& s.last_brake == 0
}

/// The session looks at the report at all: it is the first one, or it
/// differs from the one before.
pub open spec fn fresh(s: Session, report: [u8; REPORT_LEN]) -> bool {
    s.first_read || report@ != s.last_report@
}

/// The action that a step returns.
pub open spec fn action_of(s: Session, poll: Poll) -> ActionView {
    let gas = poll.report[GAS_OFFSET as int];
    let brake = poll.report[BRAKE_OFFSET as int];
    if s.phase != Phase::Running || poll.cancel_requested {
        ActionView::Stop
    } else if !fresh(s, poll.report) {
        ActionView::Skip
    } else if significant(s.first_read, gas, brake, s.last_gas, s.last_brake) {
        ActionView::Send(update_text(gas, brake))
    } else {
        ActionView::Hold
    }
}

/// The state in which a step leaves the session.
pub open spec fn state_after(s: Session, poll: Poll) -> Session {
    let gas = poll.report[GAS_OFFSET as int];
    let brake = poll.report[BRAKE_OFFSET as int];
    if s.phase != Phase::Running {
        s
    } else if poll.cancel_requested {
        Session { phase: Phase::Cancelled, ..s }
    } else if !fresh(s, poll.report) {
        s
    } else if significant(s.first_read, gas, brake, s.last_gas, s.last_brake) {
        Session {
            phase: Phase::Running,
            first_read: false,
            last_report: poll.report,
            last_gas: gas,
            last_brake: brake,
        }
    } else {
        Session { first_read: false, last_report: poll.report, ..s }
    }
}

/// The messages that one poll makes the session send: one or none.
pub open spec fn sent_by(s: Session, poll: Poll) -> Seq<Seq<char>> {
    match action_of(s, poll) {
        ActionView::Send(text) => seq![text],
        _ => Seq::empty(),
    }
}

/// The messages that a session sends over a run of polls, in order.
pub open spec fn emitted(s: Session, polls: Seq<Poll>) -> Seq<Seq<char>>
    decreases polls.len(),
{
    if polls.len() == 0 {
        Seq::empty()
    } else {
        sent_by(s, polls[0]) + emitted(state_after(s, polls[0]), polls.drop_first())
    }
}

/// The state in which a run of polls leaves the session.
pub open spec fn state_after_all(s: Session, polls: Seq<Poll>) -> Session
    decreases polls.len(),
{
    if polls.len() == 0 {
        s
    } else {
        state_after_all(state_after(s, polls[0]), polls.drop_first())
    }
}

/// The three axes of one report, normalised.
#[derive(Clone, Copy, Debug, PartialEq, Eq, Structural)]
pub struct Controls {
    pub steering: Axis,
    pub brake: Axis,
    pub gas: Axis,
}

/// Reads the steering, brake and gas bytes of a report at their offsets and
/// normalises them.
pub fn controls(report: &[u8; REPORT_LEN]) -> (c: Controls)
    ensures
        c.steering == steering_axis(report[STEERING_OFFSET as int]),
        c.brake == pedal_axis(report[BRAKE_OFFSET as int]),
        c.gas == pedal_axis(report[GAS_OFFSET as int]),
{
    Controls {
        steering: normalise_steer_value(report[STEERING_OFFSET]),
        brake: normalise_pedal_value(report[BRAKE_OFFSET]),
        gas: normalise_pedal_value(report[GAS_OFFSET]),
    }
}

impl Session {
    /// Starts a session: no report seen, nothing sent.
    pub fn new() -> (s: Session)
        ensures
            initial(s),
    {
        let s = Session {
            phase: Phase::Running,
            first_read: true,
            last_report: [0u8; REPORT_LEN],
            last_gas: 0,
            last_brake: 0,
        };
        assert(s.last_report@ =~= Seq::new(REPORT_LEN as nat, |i: int| 0u8));
        s
    }

    /// Whether the polling loop goes on.
    pub fn is_running(&self) -> (running: bool)
        ensures
            running == (self.phase == Phase::Running),
    {
        self.phase == Phase::Running
    }

    /// Processes one poll and says what to do with it. A session that is
    /// over answers `Stop` and keeps its state.
    pub fn step(&mut self, poll: &Poll) -> (action: Action)
        ensures
            action@ == action_of(*old(self), *poll),
            *final(self) == state_after(*old(self), *poll),
    {
        if self.phase != Phase::Running {
            return Action::Stop;
        }
        if poll.cancel_requested {
            self.phase = Phase::Cancelled;
            return Action::Stop;
        }
        if !self.first_read && !has_changed(self.last_report.as_slice(), poll.report.as_slice()) {
            return Action::Skip;
        }
        let brake: u8 = poll.report[BRAKE_OFFSET];
        let gas: u8 = poll.report[GAS_OFFSET];
        let emit = is_significant(self.first_read, gas, brake, self.last_gas, self.last_brake);
        self.last_report = poll.report;
        self.first_read = false;
        if emit {
            self.last_gas = gas;
            self.last_brake = brake;
            Action::Send(format_update(gas, brake))
        } else {
            Action::Hold
        }
    }

    /// Processes a run of polls in order and returns the messages to send,
    /// in the order in which they are due.
    pub fn replay(&mut self, polls: &Vec<Poll>) -> (messages: Vec<String>)
        ensures
            messages.deep_view() == emitted(*old(self), polls@),
            *final(self) == state_after_all(*old(self), polls@),
    {
        let ghost start = *self;
        let mut messages: Vec<String> = Vec::new();
        let mut i: usize = 0;
        assert(messages.deep_view() =~= emitted(start, polls@.take(0)));
        while i < polls.len()
            invariant
                i <= polls@.len(),
                messages.deep_view() == emitted(start, polls@.take(i as int)),
                *self == state_after_all(start, polls@.take(i as int)),
            decreases polls@.len() - i,
        {
            let ghost before = messages.deep_view();
            let action = self.step(&polls[i]);
            proof {
                lemma_run_push(start, polls@.take(i as int), polls@[i as int]);
                assert(polls@.take(i as int).push(polls@[i as int]) =~= polls@.take(i + 1));
            }
            match action {
                Action::Send(text) => {
                    messages.push(text);
                    assert(messages.deep_view() =~= before + seq![text@]);
                },
                _ => {
                    assert(messages.deep_view() =~= before + Seq::<Seq<char>>::empty());
                },
            }
            i += 1;
        }
        assert(polls@.take(i as int) =~= polls@);
        messages
    }

    /// The offsets of `report` that a diagnostic listing marks as changed:
    /// those that differ from the report before, and none on the first
    /// report.
    pub fn highlights(&self, report: &[u8; REPORT_LEN]) -> (positions: Vec<usize>)
        ensures
            positions@ == (if self.first_read {
                Seq::<usize>::empty()
            } else {
                differing_positions(self.last_report@, report@)
            }),
    {
        if self.first_read {
            Vec::new()
        } else {
            compare_byte_arrays(self.last_report.as_slice(), report.as_slice())
        }
    }

    /// Records the client's disconnect: a running session becomes cancelled.
    pub fn cancel(&mut self)
        ensures
            *final(self) == (if old(self).phase == Phase::Running {
                Session { phase: Phase::Cancelled, ..*old(self) }
            } else {
                *old(self)
            }),
    {
        if self.phase == Phase::Running {
            self.phase = Phase::Cancelled;
        }
    }

    /// Records a failed device read or a failed send: a running session
    /// ends. Nothing is retried.
    pub fn fail(&mut self)
        ensures
            *final(self) == (if old(self).phase == Phase::Running {
                Session { phase: Phase::Ended, ..*old(self) }
            } else {
                *old(self)
            }),
    {
        if self.phase == Phase::Running {
            self.phase = Phase::Ended;
        }
    }
}

/// A session that is over stays as it is and asks for nothing but `Stop`.
pub proof fn lemma_over_is_final(s: Session, poll: Poll)
    requires
        s.phase != Phase::Running,
    ensures
        action_of(s, poll) == ActionView::Stop,
        state_after(s, poll) == s,
{
}

/// A poll that carries the cancellation request stops the session without a
/// message, whatever the report holds.
pub proof fn lemma_cancel_stops(s: Session, poll: Poll)
    requires
        poll.cancel_requested,
    ensures
        action_of(s, poll) == ActionView::Stop,
        state_after(s, poll).phase != Phase::Running,
{
}

/// A session that is over sends nothing, however many polls follow.
pub proof fn lemma_over_is_silent(s: Session, polls: Seq<Poll>)
    requires
        s.phase != Phase::Running,
    ensures
        emitted(s, polls) == Seq::<Seq<char>>::empty(),
    decreases polls.len(),
{
    if polls.len() > 0 {
        lemma_over_is_final(s, polls[0]);
        lemma_over_is_silent(s, polls.drop_first());
    }
}

/// Once a poll carries the cancellation request, the session has sent all it
/// ever sends: the messages of the whole run are those of the polls before
/// that one.
pub proof fn lemma_silent_after_cancel(s: Session, polls: Seq<Poll>, at: int)
    requires
        0 <= at < polls.len(),
        polls[at].cancel_requested,
    ensures
        emitted(s, polls) == emitted(s, polls.take(at)),
    decreases at,
{
    let next = state_after(s, polls[0]);
    if at == 0 {
        lemma_cancel_stops(s, polls[0]);
        lemma_over_is_silent(next, polls.drop_first());
        assert(polls.take(0).len() == 0);
    } else {
        lemma_silent_after_cancel(next, polls.drop_first(), at - 1);
        assert(polls.take(at).drop_first() =~= polls.drop_first().take(at - 1));
        assert(polls.take(at)[0] == polls[0]);
    }
}

/// A run that is one poll longer leaves the session where that poll takes
/// it from the end of the shorter run, and sends what the shorter run sent
/// followed by what that poll adds.
pub proof fn lemma_run_push(s: Session, polls: Seq<Poll>, poll: Poll)
    ensures
        state_after_all(s, polls.push(poll)) == state_after(state_after_all(s, polls), poll),
        emitted(s, polls.push(poll)) == emitted(s, polls) + sent_by(
            state_after_all(s, polls),
            poll,
        ),
    decreases polls.len(),
{
    let longer = polls.push(poll);
    if polls.len() == 0 {
        assert(longer[0] == poll);
        assert(longer.drop_first() =~= Seq::<Poll>::empty());
        assert(state_after_all(state_after(s, poll), longer.drop_first()) == state_after(s, poll));
        assert(emitted(state_after(s, poll), longer.drop_first()) =~= Seq::<Seq<char>>::empty());
        assert(emitted(s, longer) =~= emitted(s, polls) + sent_by(s, poll));
    } else {
        let next = state_after(s, polls[0]);
        lemma_run_push(next, polls.drop_first(), poll);
        assert(longer.drop_first() =~= polls.drop_first().push(poll));
        assert(longer[0] == polls[0]);
        assert(emitted(s, longer) =~= emitted(s, polls) + sent_by(
            state_after_all(s, polls),
            poll,
        ));
    }
}

/// Each poll adds at most one message, behind those sent before it: nothing
/// already sent is reordered or withdrawn.
pub proof fn lemma_emitted_in_order(s: Session, polls: Seq<Poll>, poll: Poll)
    ensures
        emitted(s, polls).len() <= emitted(s, polls.push(poll)).len() <= emitted(s, polls).len()
            + 1,
        emitted(s, polls) == emitted(s, polls.push(poll)).take(emitted(s, polls).len() as int),
{
    lemma_run_push(s, polls, poll);
    assert(emitted(s, polls) =~= emitted(s, polls.push(poll)).take(
        emitted(s, polls).len() as int,
    ));
}

/// A run sends at most one message per poll.
pub proof fn lemma_emitted_bounded(s: Session, polls: Seq<Poll>)
    ensures
        emitted(s, polls).len() <= polls.len(),
    decreases polls.len(),
{
    if polls.len() > 0 {
        lemma_emitted_bounded(state_after(s, polls[0]), polls.drop_first());
    }
}

/// The first report of a session is always sent.
pub proof fn lemma_first_report_is_sent(s: Session, poll: Poll)
    requires
        initial(s),
        !poll.cancel_requested,
    ensures
        action_of(s, poll) == ActionView::Send(
            update_text(poll.report[GAS_OFFSET as int], poll.report[BRAKE_OFFSET as int]),
        ),
        !state_after(s, poll).first_read,
{
}

/// A report that repeats the one before changes nothing and sends nothing.
pub proof fn lemma_repeat_is_skipped(s: Session, poll: Poll)
    requires
        s.phase == Phase::Running,
        !s.first_read,
        !poll.cancel_requested,
        poll.report@ == s.last_report@,
    ensures
        action_of(s, poll) == ActionView::Skip,
        state_after(s, poll) == s,
{
}

} // verus!
