use vstd::prelude::*;

verus! {

/// Bytes asked of each transfer unless the caller chooses otherwise.
pub const SPLICE_BUFFER_SIZE: usize = 1024;

/// Whether a transfer waits for data or returns at once when none is ready.
#[derive(Debug, Clone, Copy, PartialEq, Eq, Structural)]
pub enum SpliceMode {
    Block,
    NonBlock,
}

/// Relies on libc::SPLICE_F_NONBLOCK, the flag word that asks `splice(2)`
/// not to block (0x02 on Linux).
#[verifier::external_body]
fn splice_nonblock_flag() -> (r: u32)
    ensures
        r == 2,
{
    libc::SPLICE_F_NONBLOCK
}

/// The `splice(2)` flag word for a transfer mode.
pub fn splice_flags(mode: SpliceMode) -> (r: u32)
    ensures
        mode is Block ==> r == 0,
        mode is NonBlock ==> r == 2,
{
    match mode {
        SpliceMode::Block => 0,
        SpliceMode::NonBlock => splice_nonblock_flag(),
    }
}

/// Whether std classifies the error code as a broken pipe.
pub uninterp spec fn broken_pipe_of(code: i32) -> bool;

/// Relies on std::io::Error::from_raw_os_error and ErrorKind: whether the
/// code is one that std reports as `ErrorKind::BrokenPipe`.
#[verifier::external_body]
fn is_broken_pipe(code: i32) -> (r: bool)
    ensures
        r == broken_pipe_of(code),
{
    std::io::Error::from_raw_os_error(code).kind() == std::io::ErrorKind::BrokenPipe
}

/// Where the relay stands; each phase but the last waits for one answer.
#[derive(Debug, Clone, Copy, PartialEq, Eq, Structural)]
pub enum RelayPhase {
    /// About to read the cancellation flag.
    Polling,
    /// A transfer was asked for and its outcome is awaited.
    Transferring,
    /// A fatal transfer error was seen; the cancellation flag must be raised.
    Raising,
    /// Stopping; the completion notice must be sent.
    Notifying,
    /// Terminal: control goes back to the caller.
    Stopped,
}

/// What the caller reports back after carrying out the relay's last action.
#[derive(Debug, Clone, Copy, PartialEq, Eq, Structural)]
pub enum RelayEvent {
    /// The cancellation flag was read and held this value.
    Flag(bool),
    /// The transfer returned this byte count; zero means end of input.
    Moved(isize),
    /// The transfer failed with the OS error `code`; `broken_pipe` tells
    /// whether that code means the far end was closed.
    Failed { code: i32, broken_pipe: bool },
    /// The cancellation flag was set to true.
    FlagRaised,
    /// The completion notice was sent (or its receiver was gone).
    Notified,
}

/// What the caller has to do next for the relay.
#[derive(Debug, Clone, Copy, PartialEq, Eq, Structural)]
pub enum RelayAction {
    /// Read the cancellation flag and answer with `Flag`.
    LoadFlag,
    /// Move up to `len` bytes from `fd_in` to `fd_out` with `splice(2)` and
    /// the flag word `flags`; answer with `Moved` or `Failed`.
    Transfer { fd_in: i32, fd_out: i32, len: usize, flags: u32 },
    /// Set the cancellation flag to true and answer with `FlagRaised`.
    RaiseFlag,
    /// Send the completion notice and answer with `Notified`.
    Notify,
    /// Return to the caller; nothing is left to do.
    Finish,
}

/// The control state of the relay: its phase, and whether a completion
/// notice is owed to someone.
#[derive(Debug, Clone, Copy, PartialEq, Eq, Structural)]
pub struct RelayState {
    pub phase: RelayPhase,
    pub has_sink: bool,
}

/// The phase the relay enters once it has decided to stop.
pub open spec fn stopping(has_sink: bool) -> RelayPhase {
    if has_sink {
        RelayPhase::Notifying
    } else {
        RelayPhase::Stopped
    }
}

/// The state after an answer; an answer that does not fit the phase is
/// ignored.
pub open spec fn next(s: RelayState, ev: RelayEvent) -> RelayState {
    let phase = match (s.phase, ev) {
        (RelayPhase::Polling, RelayEvent::Flag(true)) => stopping(s.has_sink),
        (RelayPhase::Polling, RelayEvent::Flag(false)) => RelayPhase::Transferring,
        (RelayPhase::Transferring, RelayEvent::Moved(n)) => {
            if n == 0 {
                stopping(s.has_sink)
            } else {
                RelayPhase::Polling
            }
        },
        (RelayPhase::Transferring, RelayEvent::Failed { broken_pipe, .. }) => {
            if broken_pipe {
                RelayPhase::Polling
            } else {
                RelayPhase::Raising
            }
        },
        (RelayPhase::Raising, RelayEvent::FlagRaised) => stopping(s.has_sink),
        (RelayPhase::Notifying, RelayEvent::Notified) => RelayPhase::Stopped,
        _ => s.phase,
    };
    RelayState { phase, has_sink: s.has_sink }
}

/// The state after a sequence of answers.
pub open spec fn run(s: RelayState, evs: Seq<RelayEvent>) -> RelayState
    decreases evs.len(),
{
    if evs.len() == 0 {
        s
    } else {
        run(next(s, evs[0]), evs.drop_first())
    }
}

/// Whether the answer `ev`, given in state `s`, reports a sent notice.
pub open spec fn is_notice(s: RelayState, ev: RelayEvent) -> bool {
    s.phase is Notifying && ev is Notified
}

/// Whether the answer `ev`, given in state `s`, reports a transfer.
pub open spec fn is_transfer(s: RelayState, ev: RelayEvent) -> bool {
    s.phase is Transferring && (ev is Moved || ev is Failed)
}

/// Whether the answer `ev`, given in state `s`, reports a raised flag.
pub open spec fn is_raise(s: RelayState, ev: RelayEvent) -> bool {
    s.phase is Raising && ev is FlagRaised
}

/// How many completion notices a sequence of answers reports.
pub open spec fn notices(s: RelayState, evs: Seq<RelayEvent>) -> nat
    decreases evs.len(),
{
    if evs.len() == 0 {
        0
    } else {
        (if is_notice(s, evs[0]) { 1nat } else { 0nat }) + notices(next(s, evs[0]), evs.drop_first())
    }
}

/// How many transfers a sequence of answers reports.
pub open spec fn transfers(s: RelayState, evs: Seq<RelayEvent>) -> nat
    decreases evs.len(),
{
    if evs.len() == 0 {
        0
    } else {
        (if is_transfer(s, evs[0]) { 1nat } else { 0nat }) + transfers(next(s, evs[0]), evs.drop_first())
    }
}

/// How many times a sequence of answers reports the flag raised.
pub open spec fn raises(s: RelayState, evs: Seq<RelayEvent>) -> nat
    decreases evs.len(),
{
    if evs.len() == 0 {
        0
    } else {
        (if is_raise(s, evs[0]) { 1nat } else { 0nat }) + raises(next(s, evs[0]), evs.drop_first())
    }
}

/// The completion notices still owed from a state.
pub open spec fn owed_notices(s: RelayState) -> nat {
    match s.phase {
        RelayPhase::Notifying => 1,
        RelayPhase::Stopped => 0,
        _ => if s.has_sink { 1 } else { 0 },
    }
}

/// Whether a state has decided to stop.
pub open spec fn is_stopping(s: RelayState) -> bool {
    s.phase is Notifying || s.phase is Stopped
}


/// The action owed in a state, for a relay with the given transfer
/// parameters.
pub open spec fn action_of(s: RelayState, fd_in: i32, fd_out: i32, len: usize, flags: u32) -> RelayAction {
    match s.phase {
        RelayPhase::Polling => RelayAction::LoadFlag,
        RelayPhase::Transferring => RelayAction::Transfer { fd_in, fd_out, len, flags },
        RelayPhase::Raising => RelayAction::RaiseFlag,
        RelayPhase::Notifying => RelayAction::Notify,
        RelayPhase::Stopped => RelayAction::Finish,
    }
}

/// The answer to a transfer, from what `splice(2)` returned (`ret`, and
/// `errno` when `ret` is `-1`).
pub fn transfer_event(ret: isize, errno: i32) -> (r: RelayEvent)
    ensures
        ret == -1 ==> r == (RelayEvent::Failed { code: errno, broken_pipe: broken_pipe_of(errno) }),
        ret != -1 ==> r == (RelayEvent::Moved(ret)),
{
    if ret == -1 {
        RelayEvent::Failed { code: errno, broken_pipe: is_broken_pipe(errno) }
    } else {
        RelayEvent::Moved(ret)
    }
}

/// The relay loop as a state machine: it moves data from `fd_in` to
/// `fd_out`, `chunk` bytes at most per transfer, until the shared
/// cancellation flag is seen set, the input ends, or a transfer fails for
/// another reason than a broken pipe. The caller carries out each action and answers with its
/// outcome.
#[derive(Debug)]
pub struct SpliceRelay {
    fd_in: i32,
    fd_out: i32,
    chunk: usize,
    mode: SpliceMode,
    state: RelayState,
}

impl SpliceRelay {
    pub closed spec fn fd_in(&self) -> i32 {
        self.fd_in
    }

    pub closed spec fn fd_out(&self) -> i32 {
        self.fd_out
    }

    pub closed spec fn chunk(&self) -> usize {
        self.chunk
    }

    pub closed spec fn mode(&self) -> SpliceMode {
        self.mode
    }

    pub closed spec fn state(&self) -> RelayState {
        self.state
    }

    /// The `splice(2)` flag word of the relay's mode.
    pub open spec fn flag_word(&self) -> u32 {
        if self.mode() is Block {
            0
        } else {
            2
        }
    }

    /// The action the relay waits on.
    pub open spec fn pending(&self) -> RelayAction {
        action_of(self.state(), self.fd_in(), self.fd_out(), self.chunk(), self.flag_word())
    }

    /// A running relay between `fd_in` and `fd_out`; `has_sink` tells whether
    /// a completion notice is to be sent when it stops.
    pub fn new(fd_in: i32, fd_out: i32, chunk: usize, mode: SpliceMode, has_sink: bool) -> (r: SpliceRelay)
        requires
            chunk > 0,
        ensures
            r.fd_in() == fd_in,
            r.fd_out() == fd_out,
            r.chunk() == chunk,
            r.mode() == mode,
            r.state() == (RelayState { phase: RelayPhase::Polling, has_sink }),
    {
        SpliceRelay { fd_in, fd_out, chunk, mode, state: RelayState { phase: RelayPhase::Polling, has_sink } }
    }

    /// A blocking relay with the default transfer size.
    pub fn blocking(fd_in: i32, fd_out: i32, has_sink: bool) -> (r: SpliceRelay)
        ensures
            r.fd_in() == fd_in,
            r.fd_out() == fd_out,
            r.chunk() == SPLICE_BUFFER_SIZE,
            r.mode() == SpliceMode::Block,
            r.state() == (RelayState { phase: RelayPhase::Polling, has_sink }),
    {
        SpliceRelay::new(fd_in, fd_out, SPLICE_BUFFER_SIZE, SpliceMode::Block, has_sink)
    }

    /// The relay's current control state.
    pub fn control(&self) -> (r: RelayState)
        ensures
            r == self.state(),
    {
        self.state
    }

    /// The action the caller has to carry out next.
    pub fn action(&self) -> (r: RelayAction)
        ensures
            r == self.pending(),
    {
        match self.state.phase {
            RelayPhase::Polling => RelayAction::LoadFlag,
            RelayPhase::Transferring => RelayAction::Transfer {
                fd_in: self.fd_in,
                fd_out: self.fd_out,
                len: self.chunk,
                flags: splice_flags(self.mode),
            },
            RelayPhase::Raising => RelayAction::RaiseFlag,
            RelayPhase::Notifying => RelayAction::Notify,
            RelayPhase::Stopped => RelayAction::Finish,
        }
    }

    /// Takes the outcome of the last action into account.
    pub fn step(&mut self, ev: RelayEvent)
        ensures
            final(self).state() == next(old(self).state(), ev),
            final(self).fd_in() == old(self).fd_in(),
            final(self).fd_out() == old(self).fd_out(),
            final(self).chunk() == old(self).chunk(),
            final(self).mode() == old(self).mode(),
    {
        let has_sink = self.state.has_sink;
        let stop = if has_sink {
            RelayPhase::Notifying
        } else {
            RelayPhase::Stopped
        };
        let phase = match (self.state.phase, ev) {
            (RelayPhase::Polling, RelayEvent::Flag(true)) => stop,
            (RelayPhase::Polling, RelayEvent::Flag(false)) => RelayPhase::Transferring,
            (RelayPhase::Transferring, RelayEvent::Moved(n)) => {
                if n == 0 {
                    stop
                } else {
                    RelayPhase::Polling
                }
            },
            (RelayPhase::Transferring, RelayEvent::Failed { broken_pipe, .. }) => {
                if broken_pipe {
                    RelayPhase::Polling
                } else {
                    RelayPhase::Raising
                }
            },
            (RelayPhase::Raising, RelayEvent::FlagRaised) => stop,
            (RelayPhase::Notifying, RelayEvent::Notified) => RelayPhase::Stopped,
            (p, _) => p,
        };
        self.state = RelayState { phase, has_sink };
    }

    /// Whether the relay has reached its terminal phase.
    pub fn is_stopped(&self) -> (r: bool)
        ensures
            r == (self.state().phase is Stopped),
    {
        match self.state.phase {
            RelayPhase::Stopped => true,
            _ => false,
        }
    }
}

/// Every completion notice reported along a run is one that was owed: the
/// notices sent plus those still owed at the end equal those owed at the start.
pub proof fn lemma_notice_balance(s: RelayState, evs: Seq<RelayEvent>)
    ensures
        notices(s, evs) + owed_notices(run(s, evs)) == owed_notices(s),
    decreases evs.len(),
{
    if evs.len() > 0 {
        lemma_notice_balance(next(s, evs[0]), evs.drop_first());
    }
}

/// A relay started fresh sends at most one completion notice, and exactly
/// one, if it was given somewhere to send it, by the time it has stopped.
pub proof fn lemma_notified_once(has_sink: bool, evs: Seq<RelayEvent>)
    ensures
        notices(RelayState { phase: RelayPhase::Polling, has_sink }, evs) <= 1,
        run(RelayState { phase: RelayPhase::Polling, has_sink }, evs).phase is Stopped
            ==> notices(RelayState { phase: RelayPhase::Polling, has_sink }, evs) == (if has_sink { 1nat } else { 0nat }),
        !has_sink ==> notices(RelayState { phase: RelayPhase::Polling, has_sink }, evs) == 0,
{
    lemma_notice_balance(RelayState { phase: RelayPhase::Polling, has_sink }, evs);
}

/// Once the relay has decided to stop it stays stopping: it asks for no
/// further transfer and never raises the cancellation flag.
pub proof fn lemma_stopping_stays(s: RelayState, evs: Seq<RelayEvent>)
    requires
        is_stopping(s),
    ensures
        is_stopping(run(s, evs)),
        transfers(s, evs) == 0,
        raises(s, evs) == 0,
    decreases evs.len(),
{
    if evs.len() > 0 {
        lemma_stopping_stays(next(s, evs[0]), evs.drop_first());
    }
}

/// Seeing the cancellation flag set stops the relay: no transfer follows,
/// the relay does not touch the flag, and a relay with somewhere to send it
/// sends its completion notice with the next answer and is then stopped.
pub proof fn lemma_cancel_stops(has_sink: bool, evs: Seq<RelayEvent>)
    ensures
        is_stopping(next(RelayState { phase: RelayPhase::Polling, has_sink }, RelayEvent::Flag(true))),
        transfers(next(RelayState { phase: RelayPhase::Polling, has_sink }, RelayEvent::Flag(true)), evs) == 0,
        raises(next(RelayState { phase: RelayPhase::Polling, has_sink }, RelayEvent::Flag(true)), evs) == 0,
        has_sink ==> next(RelayState { phase: RelayPhase::Polling, has_sink }, RelayEvent::Flag(true)).phase is Notifying,
        has_sink ==> next(next(RelayState { phase: RelayPhase::Polling, has_sink }, RelayEvent::Flag(true)), RelayEvent::Notified).phase is Stopped,
        !has_sink ==> next(RelayState { phase: RelayPhase::Polling, has_sink }, RelayEvent::Flag(true)).phase is Stopped,
{
    lemma_stopping_stays(next(RelayState { phase: RelayPhase::Polling, has_sink }, RelayEvent::Flag(true)), evs);
}

/// A transfer failing for another reason than a broken pipe makes the relay
/// raise the cancellation flag itself, then stop: no transfer follows.
pub proof fn lemma_fatal_error_raises(has_sink: bool, code: i32, evs: Seq<RelayEvent>)
    ensures
        next(RelayState { phase: RelayPhase::Transferring, has_sink }, RelayEvent::Failed { code, broken_pipe: false }).phase is Raising,
        is_stopping(next(next(RelayState { phase: RelayPhase::Transferring, has_sink }, RelayEvent::Failed { code, broken_pipe: false }), RelayEvent::FlagRaised)),
        transfers(next(next(RelayState { phase: RelayPhase::Transferring, has_sink }, RelayEvent::Failed { code, broken_pipe: false }), RelayEvent::FlagRaised), evs) == 0,
{
    lemma_stopping_stays(next(next(RelayState { phase: RelayPhase::Transferring, has_sink }, RelayEvent::Failed { code, broken_pipe: false }), RelayEvent::FlagRaised), evs);
}

/// The relay raises the cancellation flag only right after a transfer that
/// failed for another reason than a broken pipe.
pub proof fn lemma_raise_only_on_fatal(s: RelayState, ev: RelayEvent)
    ensures
        next(s, ev).phase is Raising && !(s.phase is Raising)
            ==> s.phase is Transferring && ev is Failed && !ev->broken_pipe,
{
}

/// End of input stops the relay without any cancellation: no transfer
/// follows, the flag is left alone, and a relay with somewhere to send it
/// sends exactly one completion notice and then finishes.
pub proof fn lemma_end_of_input_stops(has_sink: bool, evs: Seq<RelayEvent>)
    ensures
        is_stopping(next(RelayState { phase: RelayPhase::Transferring, has_sink }, RelayEvent::Moved(0))),
        transfers(next(RelayState { phase: RelayPhase::Transferring, has_sink }, RelayEvent::Moved(0)), evs) == 0,
        raises(next(RelayState { phase: RelayPhase::Transferring, has_sink }, RelayEvent::Moved(0)), evs) == 0,
        notices(next(RelayState { phase: RelayPhase::Transferring, has_sink }, RelayEvent::Moved(0)), evs) <= 1,
        run(next(RelayState { phase: RelayPhase::Transferring, has_sink }, RelayEvent::Moved(0)), evs).phase is Stopped
            ==> notices(next(RelayState { phase: RelayPhase::Transferring, has_sink }, RelayEvent::Moved(0)), evs) == (if has_sink { 1nat } else { 0nat }),
        has_sink ==> next(RelayState { phase: RelayPhase::Transferring, has_sink }, RelayEvent::Moved(0)).phase is Notifying,
        has_sink ==> next(next(RelayState { phase: RelayPhase::Transferring, has_sink }, RelayEvent::Moved(0)), RelayEvent::Notified).phase is Stopped,
        !has_sink ==> next(RelayState { phase: RelayPhase::Transferring, has_sink }, RelayEvent::Moved(0)).phase is Stopped,
{
    let s1 = next(RelayState { phase: RelayPhase::Transferring, has_sink }, RelayEvent::Moved(0));
    lemma_stopping_stays(s1, evs);
    lemma_notice_balance(s1, evs);
}

/// A broken pipe, or a transfer that moved data, leaves the relay running:
/// it goes back to reading the flag.
pub proof fn lemma_benign_outcomes_continue(has_sink: bool, code: i32, n: isize)
    requires
        n != 0,
    ensures
        next(RelayState { phase: RelayPhase::Transferring, has_sink }, RelayEvent::Failed { code, broken_pipe: true }).phase is Polling,
        next(RelayState { phase: RelayPhase::Transferring, has_sink }, RelayEvent::Moved(n)).phase is Polling,
{
}

/// Along any run the relay raises the cancellation flag at most once, and
/// not at all once it has decided to stop.
pub proof fn lemma_raised_at_most_once(s: RelayState, evs: Seq<RelayEvent>)
    ensures
        raises(s, evs) <= 1,
        is_stopping(s) ==> raises(s, evs) == 0,
    decreases evs.len(),
{
    if is_stopping(s) {
        lemma_stopping_stays(s, evs);
    } else if evs.len() > 0 {
        lemma_raised_at_most_once(next(s, evs[0]), evs.drop_first());
        if is_raise(s, evs[0]) {
            lemma_stopping_stays(next(s, evs[0]), evs.drop_first());
        }
    }
}

} // verus!
