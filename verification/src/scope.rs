//! The transactional request scope: the state machine that binds one
//! request to one pooled connection and one transaction, runs the
//! business-logic executor against it, and finalizes exactly once.
//!
//! The driver that owns the actual connection, transaction and executor
//! feeds each observation into `step` and performs the action it returns.
//! The scope's counters account for what happened; its invariant pins the
//! guarantees: a finished request committed or aborted exactly once and
//! released its connection exactly once, and a request whose executor
//! kept a handle to the transaction is poisoned — the only action left is
//! to end the process, and no response can ever be produced for it.

use vstd::prelude::*;

verus! {

/// Where one request stands in its lifecycle.
pub enum ScopeState {
    /// Waiting for a pooled connection.
    Acquiring,
    /// Connection held; resolving the identity against it.
    Resolving,
    /// Identity resolved; opening the transaction.
    Opening,
    /// Transaction open and lent to the business-logic executor.
    Executing,
    /// Sole ownership of the transaction confirmed; committing.
    Committing,
    /// Finished: finalized, and whatever was held was given back.
    Done,
    /// The executor retained a handle to the transaction: the one
    /// fatal, non-recoverable state.
    Poisoned,
}

/// What the driver observed since the last step.
pub enum ScopeEvent {
    AcquireOk,
    /// The pool was exhausted or the acquisition timeout fired.
    AcquireFailed,
    ResolveOk,
    /// An unexpected database error during identity resolution.
    ResolveFailed,
    OpenOk,
    OpenFailed,
    /// The executor returned; `sole_owner` says whether the scope now
    /// holds the only remaining handle to the transaction.
    ExecutorReturned { sole_owner: bool },
    /// The request was cancelled, or the executor tore down without
    /// returning, after the transaction opened.
    Cancelled,
    CommitOk,
    CommitFailed,
}

/// The response owed when a request finishes.
pub enum ResponseKind {
    /// The executor's own payload.
    FromExecutor,
    /// 503-class: pool exhaustion, or a commit that did not go through.
    ServiceUnavailable,
    /// 500-class: an unexpected database error.
    InternalError,
}

/// What the driver must do next.
pub enum ScopeAction {
    AcquireConnection,
    ResolveIdentity,
    OpenTransaction,
    RunExecutor,
    CommitTransaction,
    /// Final housekeeping, in order: roll the transaction back if asked,
    /// give the connection back if asked, respond if anyone still
    /// listens (`None` when the requester is gone).
    Finish { abort_transaction: bool, release_connection: bool, response: Option<ResponseKind> },
    /// The executor retained a transaction handle. Continuing would risk
    /// the connection being reused while still borrowed, so the process
    /// ends now, deliberately without a response.
    TerminateProcess,
}

/// Which events a state admits. A finished or poisoned scope admits
/// none: the lifecycle runs strictly forward, no step skipped or
/// repeated.
pub open spec fn scope_enabled(state: ScopeState, ev: ScopeEvent) -> bool {
    match state {
        ScopeState::Acquiring => ev is AcquireOk || ev is AcquireFailed,
        ScopeState::Resolving => ev is ResolveOk || ev is ResolveFailed,
        ScopeState::Opening => ev is OpenOk || ev is OpenFailed,
        ScopeState::Executing => ev is ExecutorReturned || ev is Cancelled,
        ScopeState::Committing => ev is CommitOk || ev is CommitFailed,
        ScopeState::Done => false,
        ScopeState::Poisoned => false,
    }
}

/// The state an enabled event leads to.
pub open spec fn scope_next_state(ev: ScopeEvent) -> ScopeState {
    match ev {
        ScopeEvent::AcquireOk => ScopeState::Resolving,
        ScopeEvent::AcquireFailed => ScopeState::Done,
        ScopeEvent::ResolveOk => ScopeState::Opening,
        ScopeEvent::ResolveFailed => ScopeState::Done,
        ScopeEvent::OpenOk => ScopeState::Executing,
        ScopeEvent::OpenFailed => ScopeState::Done,
        ScopeEvent::ExecutorReturned { sole_owner } => if sole_owner {
            ScopeState::Committing
        } else {
            ScopeState::Poisoned
        },
        ScopeEvent::Cancelled => ScopeState::Done,
        ScopeEvent::CommitOk => ScopeState::Done,
        ScopeEvent::CommitFailed => ScopeState::Done,
    }
}

/// The action an enabled event demands.
pub open spec fn scope_action(ev: ScopeEvent) -> ScopeAction {
    match ev {
        ScopeEvent::AcquireOk => ScopeAction::ResolveIdentity,
        ScopeEvent::AcquireFailed => ScopeAction::Finish {
            abort_transaction: false,
            release_connection: false,
            response: Some(ResponseKind::ServiceUnavailable),
        },
        ScopeEvent::ResolveOk => ScopeAction::OpenTransaction,
        ScopeEvent::ResolveFailed => ScopeAction::Finish {
            abort_transaction: false,
            release_connection: true,
            response: Some(ResponseKind::InternalError),
        },
        ScopeEvent::OpenOk => ScopeAction::RunExecutor,
        ScopeEvent::OpenFailed => ScopeAction::Finish {
            abort_transaction: false,
            release_connection: true,
            response: Some(ResponseKind::InternalError),
        },
        ScopeEvent::ExecutorReturned { sole_owner } => if sole_owner {
            ScopeAction::CommitTransaction
        } else {
            ScopeAction::TerminateProcess
        },
        ScopeEvent::Cancelled => ScopeAction::Finish {
            abort_transaction: true,
            release_connection: true,
            response: None,
        },
        ScopeEvent::CommitOk => ScopeAction::Finish {
            abort_transaction: false,
            release_connection: true,
            response: Some(ResponseKind::FromExecutor),
        },
        ScopeEvent::CommitFailed => ScopeAction::Finish {
            abort_transaction: false,
            release_connection: true,
            response: Some(ResponseKind::ServiceUnavailable),
        },
    }
}

/// Whether an action rolls the transaction back.
pub open spec fn action_aborts(a: ScopeAction) -> bool {
    a matches ScopeAction::Finish { abort_transaction, .. } && abort_transaction
}

/// Whether an action returns the connection to the pool.
pub open spec fn action_releases(a: ScopeAction) -> bool {
    a matches ScopeAction::Finish { release_connection, .. } && release_connection
}

/// One request's scope, with its accounting.
pub struct RequestScope {
    pub state: ScopeState,
    /// Whether a pooled connection was ever handed to this request.
    pub connection_acquired: bool,
    /// Whether a transaction was ever opened for this request.
    pub transaction_opened: bool,
    /// Commit attempts.
    pub commits: u64,
    /// Rollbacks, the cancellation path included.
    pub aborts: u64,
    /// Times the connection went back to the pool.
    pub releases: u64,
    /// Statements the executor ran, for diagnostics.
    pub statements: u64,
}

impl RequestScope {
    /// The accounting a live scope maintains, and what it pins down once
    /// the scope is done.
    pub open spec fn wf(&self) -> bool {
        match self.state {
            ScopeState::Acquiring => !self.connection_acquired && !self.transaction_opened
                && self.commits == 0 && self.aborts == 0 && self.releases == 0,
            ScopeState::Resolving => self.connection_acquired && !self.transaction_opened
                && self.commits == 0 && self.aborts == 0 && self.releases == 0,
            ScopeState::Opening => self.connection_acquired && !self.transaction_opened
                && self.commits == 0 && self.aborts == 0 && self.releases == 0,
            ScopeState::Executing => self.connection_acquired && self.transaction_opened
                && self.commits == 0 && self.aborts == 0 && self.releases == 0,
            ScopeState::Committing => self.connection_acquired && self.transaction_opened
                && self.commits == 1 && self.aborts == 0 && self.releases == 0,
            ScopeState::Done => {
                &&& self.commits <= 1
                &&& self.aborts <= 1
                &&& (self.connection_acquired ==> self.releases == 1)
                &&& (!self.connection_acquired ==> self.releases == 0 && !self.transaction_opened)
                &&& (self.transaction_opened ==> self.commits + self.aborts == 1)
                &&& (!self.transaction_opened ==> self.commits == 0 && self.aborts == 0)
            },
            ScopeState::Poisoned => self.connection_acquired && self.transaction_opened
                && self.commits == 0 && self.aborts == 0 && self.releases == 0,
        }
    }

    /// A scope for one fresh request; the driver's first duty is to
    /// acquire a connection.
    pub fn start() -> (r: RequestScope)
        ensures
            r.wf(),
            r.state is Acquiring,
            r.statements == 0,
    {
        RequestScope {
            state: ScopeState::Acquiring,
            connection_acquired: false,
            transaction_opened: false,
            commits: 0,
            aborts: 0,
            releases: 0,
            statements: 0,
        }
    }

    /// Feeds the next observation in and says what the driver must do.
    pub fn step(&mut self, ev: ScopeEvent) -> (a: ScopeAction)
        requires
            old(self).wf(),
            scope_enabled(old(self).state, ev),
        ensures
            final(self).wf(),
            final(self).state == scope_next_state(ev),
            a == scope_action(ev),
            final(self).statements == old(self).statements,
            final(self).connection_acquired == (old(self).connection_acquired
                || ev is AcquireOk),
            final(self).transaction_opened == (old(self).transaction_opened || ev is OpenOk),
            final(self).commits as int == old(self).commits as int + (if scope_action(ev)
                is CommitTransaction {
                1int
            } else {
                0int
            }),
            final(self).aborts as int == old(self).aborts as int + (if action_aborts(
                scope_action(ev),
            ) {
                1int
            } else {
                0int
            }),
            final(self).releases as int == old(self).releases as int + (if action_releases(
                scope_action(ev),
            ) {
                1int
            } else {
                0int
            }),
    {
        match ev {
            ScopeEvent::AcquireOk => {
                self.state = ScopeState::Resolving;
                self.connection_acquired = true;
                ScopeAction::ResolveIdentity
            },
            ScopeEvent::AcquireFailed => {
                self.state = ScopeState::Done;
                ScopeAction::Finish {
                    abort_transaction: false,
                    release_connection: false,
                    response: Some(ResponseKind::ServiceUnavailable),
                }
            },
            ScopeEvent::ResolveOk => {
                self.state = ScopeState::Opening;
                ScopeAction::OpenTransaction
            },
            ScopeEvent::ResolveFailed => {
                self.state = ScopeState::Done;
                self.releases = self.releases + 1;
                ScopeAction::Finish {
                    abort_transaction: false,
                    release_connection: true,
                    response: Some(ResponseKind::InternalError),
                }
            },
            ScopeEvent::OpenOk => {
                self.state = ScopeState::Executing;
                self.transaction_opened = true;
                ScopeAction::RunExecutor
            },
            ScopeEvent::OpenFailed => {
                self.state = ScopeState::Done;
                self.releases = self.releases + 1;
                ScopeAction::Finish {
                    abort_transaction: false,
                    release_connection: true,
                    response: Some(ResponseKind::InternalError),
                }
            },
            ScopeEvent::ExecutorReturned { sole_owner } => {
                if sole_owner {
                    self.state = ScopeState::Committing;
                    self.commits = self.commits + 1;
                    ScopeAction::CommitTransaction
                } else {
                    self.state = ScopeState::Poisoned;
                    ScopeAction::TerminateProcess
                }
            },
            ScopeEvent::Cancelled => {
                self.state = ScopeState::Done;
                self.aborts = self.aborts + 1;
                self.releases = self.releases + 1;
                ScopeAction::Finish {
                    abort_transaction: true,
                    release_connection: true,
                    response: None,
                }
            },
            ScopeEvent::CommitOk => {
                self.state = ScopeState::Done;
                self.releases = self.releases + 1;
                ScopeAction::Finish {
                    abort_transaction: false,
                    release_connection: true,
                    response: Some(ResponseKind::FromExecutor),
                }
            },
            ScopeEvent::CommitFailed => {
                self.state = ScopeState::Done;
                self.releases = self.releases + 1;
                ScopeAction::Finish {
                    abort_transaction: false,
                    release_connection: true,
                    response: Some(ResponseKind::ServiceUnavailable),
                }
            },
        }
    }

    /// Notes one statement the executor ran, for diagnostics.
    pub fn note_statement(&mut self)
        requires
            old(self).state is Executing,
            old(self).wf(),
            old(self).statements < u64::MAX,
        ensures
            final(self).wf(),
            final(self).statements == old(self).statements + 1,
            final(self).state == old(self).state,
            final(self).connection_acquired == old(self).connection_acquired,
            final(self).transaction_opened == old(self).transaction_opened,
            final(self).commits == old(self).commits,
            final(self).aborts == old(self).aborts,
            final(self).releases == old(self).releases,
    {
        self.statements = self.statements + 1;
    }
}

/// Exactly one finalization per request: a finished request that opened
/// its transaction committed or aborted it exactly once, and a request
/// that was handed a connection released it exactly once — whichever way
/// it finished, early exits and cancellation included. One that never got
/// that far finalized and released nothing.
pub proof fn lemma_exactly_one_finalization(s: RequestScope)
    requires
        s.wf(),
        s.state is Done,
    ensures
        s.transaction_opened ==> s.commits + s.aborts == 1,
        !s.transaction_opened ==> s.commits == 0 && s.aborts == 0,
        s.connection_acquired ==> s.releases == 1,
        !s.connection_acquired ==> s.releases == 0,
{
}

/// A retained transaction handle is fatal: when the executor returns and
/// the scope no longer holds the sole handle, the demanded action is to
/// end the process. The scope is poisoned, no event can drive it any
/// further, and so no response is ever produced for it.
pub proof fn lemma_retained_handle_terminates(s: RequestScope, ev: ScopeEvent)
    requires
        s.wf(),
        s.state is Executing,
        ev matches ScopeEvent::ExecutorReturned { sole_owner: false },
    ensures
        scope_enabled(s.state, ev),
        scope_action(ev) is TerminateProcess,
        scope_next_state(ev) is Poisoned,
        forall|e: ScopeEvent| !scope_enabled(ScopeState::Poisoned, e),
{
}

} // verus!
