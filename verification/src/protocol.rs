//! The PTY allocation protocol as a verified state machine.
//!
//! An [`Allocation`] tracks one allocation in flight.  A driver repeatedly
//! asks [`Allocation::pending_action`] which kernel operation to perform
//! next, performs it, and reports the result through
//! [`Allocation::advance`], which answers with the next [`Step`]: keep
//! going, hand both handles and the path to the caller, or close the listed
//! descriptors and report the typed error.  The machine itself never touches
//! a descriptor, so every decision it makes — ordering, rollback, path
//! resolution, configuration — is verified.

use vstd::prelude::*;

use crate::config::AllocError;
use crate::config::AllocRequest;
use crate::config::RequestModel;
use crate::config::TermiosConfig;
use crate::config::TermiosModel;
use crate::config::Winsize;
use crate::path::resolve_slave_path;
use crate::path::resolved_path;

verus! {

/// Progress of one allocation.  Each non-terminal phase names the single
/// kernel operation awaited next.
#[derive(Clone, Copy, Debug, PartialEq, Eq, Structural)]
pub enum Phase {
    /// Nothing has happened yet; opening the multiplexer is pending.
    Idle,
    /// The master is open; the unlock operation on it is pending.
    AwaitingUnlock,
    /// The master is unlocked; retrieving the slave number is pending.
    AwaitingNumber,
    /// The slave path is resolved; opening the slave is pending.
    AwaitingSlave,
    /// The slave is open; applying the terminal modes is pending.
    AwaitingModes,
    /// Modes are applied or were not requested; applying the window size is
    /// pending.
    AwaitingSize,
    /// The allocation succeeded and both handles were handed out.
    Complete,
    /// The allocation failed and every descriptor opened on the way was
    /// ordered closed.
    Aborted,
}

/// What the kernel answered to the operation that was pending.
#[derive(Clone, Copy, Debug, PartialEq, Eq, Structural)]
pub enum Outcome {
    /// An open succeeded and yielded this descriptor.
    Descriptor(i32),
    /// The number retrieval succeeded and yielded this slave number.
    Number(u32),
    /// The operation succeeded and yields no value (unlock, configuration).
    Succeeded,
    /// The operation failed with this OS error number.
    Error(i32),
}

/// The kernel operation a driver must perform next.  Descriptor-free inputs
/// are borrowed from the allocation so that nothing needs to be copied.
#[derive(Debug)]
pub enum Action<'a> {
    /// Open the pseudo-terminal multiplexer device read/write, without
    /// acquiring it as the controlling terminal.
    OpenMultiplexer,
    /// Issue the unlock operation on the master, with the "not locked"
    /// value.
    UnlockMaster { master: i32 },
    /// Read back from the master the number of the slave bound to it.
    RetrieveNumber { master: i32 },
    /// Open the slave device at `path` read/write, without acquiring it as
    /// the controlling terminal.
    OpenSlave { path: &'a str },
    /// Apply `modes` to the slave with "set attributes now" semantics.
    ApplyModes { slave: i32, modes: &'a TermiosConfig },
    /// Apply `size` to the slave through the window-size-set operation.
    ApplySize { slave: i32, size: Winsize },
}

/// Mathematical image of an [`Action`].
pub enum ActionModel {
    OpenMultiplexer,
    UnlockMaster { master: i32 },
    RetrieveNumber { master: i32 },
    OpenSlave { path: Seq<char> },
    ApplyModes { slave: i32, modes: TermiosModel },
    ApplySize { slave: i32, size: Winsize },
}

impl<'a> View for Action<'a> {
    type V = ActionModel;

    open spec fn view(&self) -> ActionModel {
        match self {
            Action::OpenMultiplexer => ActionModel::OpenMultiplexer,
            Action::UnlockMaster { master } => ActionModel::UnlockMaster { master: *master },
            Action::RetrieveNumber { master } => ActionModel::RetrieveNumber { master: *master },
            Action::OpenSlave { path } => ActionModel::OpenSlave { path: path@ },
            Action::ApplyModes { slave, modes } => ActionModel::ApplyModes {
                slave: *slave,
                modes: modes@,
            },
            Action::ApplySize { slave, size } => ActionModel::ApplySize {
                slave: *slave,
                size: *size,
            },
        }
    }
}

/// What the caller of [`Allocation::advance`] must do after a step.
#[derive(Debug)]
pub enum Step {
    /// The protocol moved on; ask for the next pending action.
    Continue,
    /// The allocation is complete: both handles, fully configured, and the
    /// resolved slave path now belong to the caller.
    Succeed { master: i32, slave: i32, path: String },
    /// The allocation failed: close the listed descriptors, in order, and
    /// report the error.  Nothing else was left open.
    Fail { close: Vec<i32>, error: AllocError },
}

/// Mathematical image of a [`Step`].
pub enum StepModel {
    Continue,
    Succeed { master: i32, slave: i32, path: Seq<char> },
    Fail { close: Seq<i32>, error: AllocError },
}

impl View for Step {
    type V = StepModel;

    open spec fn view(&self) -> StepModel {
        match self {
            Step::Continue => StepModel::Continue,
            Step::Succeed { master, slave, path } => StepModel::Succeed {
                master: *master,
                slave: *slave,
                path: path@,
            },
            Step::Fail { close, error } => StepModel::Fail { close: close@, error: *error },
        }
    }
}

/// Mathematical image of an [`Allocation`].
pub struct Model {
    pub req: RequestModel,
    pub phase: Phase,
    pub master: Option<i32>,
    pub slave: Option<i32>,
    pub number: Option<u32>,
    pub path: Option<Seq<char>>,
}

impl Model {
    /// The descriptors the machine currently holds responsibility for.
    pub open spec fn tracked_fds(self) -> Set<i32> {
        let with_master = if self.master is Some {
            Set::empty().insert(self.master->0)
        } else {
            Set::empty()
        };
        if self.slave is Some {
            with_master.insert(self.slave->0)
        } else {
            with_master
        }
    }

    /// Phase-by-phase well-formedness: which fields are populated, that the
    /// two descriptors are distinct and non-negative, that the resolved path
    /// agrees with the request and the retrieved number, and that the
    /// configuration phases are only reached when the matching input was
    /// supplied.
    pub open spec fn inv(self) -> bool {
        match self.phase {
            Phase::Idle => {
                &&& self.master is None
                &&& self.slave is None
                &&& self.number is None
                &&& self.path is None
            },
            Phase::AwaitingUnlock | Phase::AwaitingNumber => {
                &&& self.master matches Some(m) && m >= 0
                &&& self.slave is None
                &&& self.number is None
                &&& self.path is None
            },
            Phase::AwaitingSlave => {
                &&& self.master matches Some(m) && m >= 0
                &&& self.slave is None
                &&& self.number is Some
                &&& self.path == Some(
                    resolved_path(self.number->0 as nat, self.req.path_override),
                )
            },
            Phase::AwaitingModes => {
                &&& self.master matches Some(m) && m >= 0
                &&& self.slave matches Some(s) && s >= 0
                &&& self.slave != self.master
                &&& self.number is Some
                &&& self.path == Some(
                    resolved_path(self.number->0 as nat, self.req.path_override),
                )
                &&& self.req.termios is Some
            },
            Phase::AwaitingSize => {
                &&& self.master matches Some(m) && m >= 0
                &&& self.slave matches Some(s) && s >= 0
                &&& self.slave != self.master
                &&& self.number is Some
                &&& self.path == Some(
                    resolved_path(self.number->0 as nat, self.req.path_override),
                )
                &&& self.req.winsize is Some
            },
            Phase::Complete => {
                &&& self.master is None
                &&& self.slave is None
            },
            Phase::Aborted => {
                &&& self.master is None
                &&& self.slave is None
            },
        }
    }

    /// The kernel operation awaited in this state, if any.
    pub open spec fn pending_of(self) -> Option<ActionModel> {
        match self.phase {
            Phase::Idle => Some(ActionModel::OpenMultiplexer),
            Phase::AwaitingUnlock => Some(ActionModel::UnlockMaster { master: self.master->0 }),
            Phase::AwaitingNumber => Some(ActionModel::RetrieveNumber { master: self.master->0 }),
            Phase::AwaitingSlave => Some(ActionModel::OpenSlave { path: self.path->0 }),
            Phase::AwaitingModes => Some(
                ActionModel::ApplyModes { slave: self.slave->0, modes: self.req.termios->0 },
            ),
            Phase::AwaitingSize => Some(
                ActionModel::ApplySize { slave: self.slave->0, size: self.req.winsize->0 },
            ),
            Phase::Complete | Phase::Aborted => None,
        }
    }
}

/// The model of a freshly created allocation for `req`.
pub open spec fn init_model(req: RequestModel) -> Model {
    Model { req, phase: Phase::Idle, master: None, slave: None, number: None, path: None }
}

/// Whether `o` is a reply the pending operation of `m` can have: successful
/// opens yield non-negative descriptors distinct from the ones already held,
/// and terminal phases await nothing.
pub open spec fn outcome_fits(m: Model, o: Outcome) -> bool {
    match m.phase {
        Phase::Idle => (o matches Outcome::Descriptor(d) && d >= 0) || o is Error,
        Phase::AwaitingUnlock => o is Succeeded || o is Error,
        Phase::AwaitingNumber => o is Number || o is Error,
        Phase::AwaitingSlave => (o matches Outcome::Descriptor(d) && d >= 0 && Some(d)
            != m.master) || o is Error,
        Phase::AwaitingModes | Phase::AwaitingSize => o is Succeeded || o is Error,
        Phase::Complete | Phase::Aborted => false,
    }
}

/// The descriptors an aborting step orders closed: the slave first if open,
/// then the master if open.
pub open spec fn close_list(m: Model) -> Seq<i32> {
    let with_slave: Seq<i32> = if m.slave is Some {
        seq![m.slave->0]
    } else {
        Seq::empty()
    };
    if m.master is Some {
        with_slave.push(m.master->0)
    } else {
        with_slave
    }
}

/// The model of an aborting step: every held descriptor is ordered closed
/// and the machine reaches `Aborted` holding nothing.
pub open spec fn aborted(m: Model, error: AllocError) -> (Model, StepModel) {
    (
        Model { phase: Phase::Aborted, master: None, slave: None, ..m },
        StepModel::Fail { close: close_list(m), error },
    )
}

/// The model of the completing step: both handles and the resolved path
/// leave the machine, which reaches `Complete` holding nothing.
pub open spec fn succeeded(m: Model) -> (Model, StepModel) {
    (
        Model { phase: Phase::Complete, master: None, slave: None, path: None, ..m },
        StepModel::Succeed { master: m.master->0, slave: m.slave->0, path: m.path->0 },
    )
}

/// The transition table of the allocation protocol: from a state and the
/// outcome of its pending operation to the next state and the step the
/// driver is told to take.
pub open spec fn step_of(m: Model, o: Outcome) -> (Model, StepModel) {
    match (m.phase, o) {
        (Phase::Idle, Outcome::Descriptor(d)) => (
            Model { phase: Phase::AwaitingUnlock, master: Some(d), ..m },
            StepModel::Continue,
        ),
        (Phase::Idle, Outcome::Error(e)) => aborted(m, AllocError::MultiplexerOpenFailed(e)),
        (Phase::AwaitingUnlock, Outcome::Succeeded) => (
            Model { phase: Phase::AwaitingNumber, ..m },
            StepModel::Continue,
        ),
        (Phase::AwaitingUnlock, Outcome::Error(e)) => aborted(m, AllocError::UnlockFailed(e)),
        (Phase::AwaitingNumber, Outcome::Number(n)) => (
            Model {
                phase: Phase::AwaitingSlave,
                number: Some(n),
                path: Some(resolved_path(n as nat, m.req.path_override)),
                ..m
            },
            StepModel::Continue,
        ),
        (Phase::AwaitingNumber, Outcome::Error(e)) => aborted(
            m,
            AllocError::NumberRetrievalFailed(e),
        ),
        (Phase::AwaitingSlave, Outcome::Descriptor(d)) => if m.req.termios is Some {
            (Model { phase: Phase::AwaitingModes, slave: Some(d), ..m }, StepModel::Continue)
        } else if m.req.winsize is Some {
            (Model { phase: Phase::AwaitingSize, slave: Some(d), ..m }, StepModel::Continue)
        } else {
            succeeded(Model { slave: Some(d), ..m })
        },
        (Phase::AwaitingSlave, Outcome::Error(e)) => aborted(m, AllocError::SlaveOpenFailed(e)),
        (Phase::AwaitingModes, Outcome::Succeeded) => if m.req.winsize is Some {
            (Model { phase: Phase::AwaitingSize, ..m }, StepModel::Continue)
        } else {
            succeeded(m)
        },
        (Phase::AwaitingModes, Outcome::Error(e)) => aborted(
            m,
            AllocError::TerminalConfigurationFailed(e),
        ),
        (Phase::AwaitingSize, Outcome::Succeeded) => succeeded(m),
        (Phase::AwaitingSize, Outcome::Error(e)) => aborted(
            m,
            AllocError::WindowSizeConfigurationFailed(e),
        ),
        _ => (m, StepModel::Continue),
    }
}

/// One PTY allocation in flight.
pub struct Allocation {
    request: AllocRequest,
    phase: Phase,
    master: Option<i32>,
    slave: Option<i32>,
    number: Option<u32>,
    path: Option<String>,
}

impl View for Allocation {
    type V = Model;

    closed spec fn view(&self) -> Model {
        Model {
            req: self.request@,
            phase: self.phase,
            master: self.master,
            slave: self.slave,
            number: self.number,
            path: match self.path {
                Some(p) => Some(p@),
                None => None,
            },
        }
    }
}

impl Allocation {
    /// Starts an allocation for `request`.  The first pending action is
    /// opening the multiplexer.
    pub fn new(request: AllocRequest) -> (a: Allocation)
        ensures
            a@ == init_model(request@),
            a@.inv(),
    {
        Allocation {
            request,
            phase: Phase::Idle,
            master: None,
            slave: None,
            number: None,
            path: None,
        }
    }

    /// The current phase.
    pub fn phase(&self) -> (p: Phase)
        ensures
            p == self@.phase,
    {
        self.phase
    }

    /// The kernel operation the driver must perform next, or `None` once the
    /// allocation has completed or aborted.
    pub fn pending_action<'a>(&'a self) -> (r: Option<Action<'a>>)
        requires
            self@.inv(),
        ensures
            match r {
                Some(a) => Some(a@) == self@.pending_of(),
                None => self@.pending_of() is None,
            },
    {
        match self.phase {
            Phase::Idle => Some(Action::OpenMultiplexer),
            Phase::AwaitingUnlock => match self.master {
                Some(m) => Some(Action::UnlockMaster { master: m }),
                None => None,
            },
            Phase::AwaitingNumber => match self.master {
                Some(m) => Some(Action::RetrieveNumber { master: m }),
                None => None,
            },
            Phase::AwaitingSlave => match &self.path {
                Some(p) => Some(Action::OpenSlave { path: p.as_str() }),
                None => None,
            },
            Phase::AwaitingModes => match (self.slave, &self.request.termios) {
                (Some(s), Some(t)) => Some(Action::ApplyModes { slave: s, modes: t }),
                _ => None,
            },
            Phase::AwaitingSize => match (self.slave, self.request.winsize) {
                (Some(s), Some(w)) => Some(Action::ApplySize { slave: s, size: w }),
                _ => None,
            },
            Phase::Complete | Phase::Aborted => None,
        }
    }

    /// Aborts: clears both descriptor slots and reports them, slave first,
    /// as the list to close alongside `error`.
    fn abort(&mut self, error: AllocError) -> (r: Step)
        ensures
            final(self)@ == aborted(old(self)@, error).0,
            r@ == aborted(old(self)@, error).1,
    {
        let mut close: Vec<i32> = Vec::new();
        if let Some(s) = self.slave {
            close.push(s);
        }
        if let Some(m) = self.master {
            close.push(m);
        }
        self.slave = None;
        self.master = None;
        self.phase = Phase::Aborted;
        proof {
            assert(close@ =~= close_list(old(self)@));
        }
        Step::Fail { close, error }
    }

    /// Completes: both handles and the resolved path leave the machine.
    fn finish(&mut self) -> (r: Step)
        requires
            old(self)@.master is Some,
            old(self)@.slave is Some,
            old(self)@.path is Some,
        ensures
            final(self)@ == succeeded(old(self)@).0,
            r@ == succeeded(old(self)@).1,
    {
        // The `None` arms below are unreachable under the precondition;
        // they only make the matches total.
        let master = match self.master {
            Some(m) => m,
            None => 0,
        };
        let slave = match self.slave {
            Some(s) => s,
            None => 0,
        };
        let path = match self.path.take() {
            Some(p) => p,
            None => String::new(),
        };
        self.master = None;
        self.slave = None;
        self.phase = Phase::Complete;
        Step::Succeed { master, slave, path }
    }

    /// Feeds the outcome of the pending operation into the machine and says
    /// what to do next.  The whole transition is pinned to the transition
    /// table [`step_of`], and the phase-wise invariant is preserved.
    pub fn advance(&mut self, outcome: Outcome) -> (r: Step)
        requires
            old(self)@.inv(),
            outcome_fits(old(self)@, outcome),
        ensures
            final(self)@ == step_of(old(self)@, outcome).0,
            r@ == step_of(old(self)@, outcome).1,
            final(self)@.inv(),
    {
        match (self.phase, outcome) {
            (Phase::Idle, Outcome::Descriptor(d)) => {
                self.master = Some(d);
                self.phase = Phase::AwaitingUnlock;
                Step::Continue
            },
            (Phase::Idle, Outcome::Error(e)) => self.abort(AllocError::MultiplexerOpenFailed(e)),
            (Phase::AwaitingUnlock, Outcome::Succeeded) => {
                self.phase = Phase::AwaitingNumber;
                Step::Continue
            },
            (Phase::AwaitingUnlock, Outcome::Error(e)) => self.abort(AllocError::UnlockFailed(e)),
            (Phase::AwaitingNumber, Outcome::Number(n)) => {
                self.number = Some(n);
                let over: Option<String> = match &self.request.path_override {
                    Some(p) => Some(p.clone()),
                    None => None,
                };
                let path = resolve_slave_path(n, over);
                self.path = Some(path);
                self.phase = Phase::AwaitingSlave;
                Step::Continue
            },
            (Phase::AwaitingNumber, Outcome::Error(e)) => self.abort(
                AllocError::NumberRetrievalFailed(e),
            ),
            (Phase::AwaitingSlave, Outcome::Descriptor(d)) => {
                self.slave = Some(d);
                if self.request.termios.is_some() {
                    self.phase = Phase::AwaitingModes;
                    Step::Continue
                } else if self.request.winsize.is_some() {
                    self.phase = Phase::AwaitingSize;
                    Step::Continue
                } else {
                    self.finish()
                }
            },
            (Phase::AwaitingSlave, Outcome::Error(e)) => self.abort(AllocError::SlaveOpenFailed(e)),
            (Phase::AwaitingModes, Outcome::Succeeded) => {
                if self.request.winsize.is_some() {
                    self.phase = Phase::AwaitingSize;
                    Step::Continue
                } else {
                    self.finish()
                }
            },
            (Phase::AwaitingModes, Outcome::Error(e)) => self.abort(
                AllocError::TerminalConfigurationFailed(e),
            ),
            (Phase::AwaitingSize, Outcome::Succeeded) => self.finish(),
            (Phase::AwaitingSize, Outcome::Error(e)) => self.abort(
                AllocError::WindowSizeConfigurationFailed(e),
            ),
            // No fitting outcome reaches this arm; it only makes the match
            // total, and mirrors the transition table's own default.
            _ => Step::Continue,
        }
    }
}

} // verus!
