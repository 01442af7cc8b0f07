//! The HMAC offload client: the scoped system-call protocol that runs one
//! hardware HMAC-SHA256 operation.
//!
//! The system calls themselves are outside this library. The protocol is a
//! state machine: [`OffloadClient::next_action`] says which call to make,
//! the caller performs it and feeds the result back through
//! [`OffloadClient::step`]. One client value drives one call, so at most
//! one transaction is ever open per caller.
//!
//! The order is fixed: select the algorithm, then bind the key, data and
//! destination buffers and the completion subscription, then run, then
//! wait for the completion event, then revoke every binding. A rejected
//! configuration command aborts before any buffer is shared; any later
//! failure, and every completion, passes through the revoke step, so no
//! binding survives the call on any exit path.

use vstd::prelude::*;

verus! {

use crate::hotp::DriverError;

/// The next system call the caller must perform.
#[derive(Copy, Clone, Debug, PartialEq, Eq, Structural)]
pub enum OffloadAction {
    /// Command selecting HMAC-SHA256 mode.
    SelectAlgorithm,
    /// Bind the read-only key buffer.
    ShareKey,
    /// Bind the read-only data buffer.
    ShareData,
    /// Bind the read-write destination buffer.
    ShareDest,
    /// Subscribe to the completion event.
    SubscribeDone,
    /// Command starting the operation.
    Run,
    /// Yield until an event is delivered.
    Wait,
    /// Release every binding of the transaction.
    Revoke,
}

/// What the performed call came back with.
#[derive(Copy, Clone, Debug, PartialEq, Eq, Structural)]
pub enum OffloadEvent {
    /// The system call succeeded.
    Accepted,
    /// The system call failed with the given status.
    Rejected(u32),
    /// The completion event fired, delivering the driver's result code and
    /// auxiliary value.
    Completed(u32, u32),
    /// The yield returned without this call's completion event.
    Pending,
    /// The bindings were released.
    Revoked,
}

/// Where the protocol stands.
#[derive(Copy, Clone, Debug, PartialEq, Eq, Structural)]
pub enum OffloadPhase {
    Selecting,
    SharingKey,
    SharingData,
    SharingDest,
    Subscribing,
    Starting,
    Waiting,
    Revoking,
    Finished,
}

/// The state of one offload call: the phase, which of the four bindings
/// the driver currently holds, and the outcome once one is known.
pub struct OffloadClient {
    pub phase: OffloadPhase,
    pub key_bound: bool,
    pub data_bound: bool,
    pub dest_bound: bool,
    pub done_bound: bool,
    pub outcome: Option<Result<(u32, u32), DriverError>>,
}

impl OffloadClient {
    /// The driver still holds at least one binding to the caller's buffers.
    pub open spec fn transaction_open(self) -> bool {
        self.key_bound || self.data_bound || self.dest_bound || self.done_bound
    }

    /// Phase and bindings agree: bindings are acquired one by one in the
    /// fixed order, an outcome exists from the moment the call's fate is
    /// decided, and a finished call holds no binding.
    pub open spec fn wf(self) -> bool {
        &&& (self.phase is Selecting ==> !self.transaction_open() && self.outcome is None)
        &&& (self.phase is SharingKey ==> !self.transaction_open() && self.outcome is None)
        &&& (self.phase is SharingData ==> self.key_bound && !self.data_bound
            && !self.dest_bound && !self.done_bound && self.outcome is None)
        &&& (self.phase is SharingDest ==> self.key_bound && self.data_bound
            && !self.dest_bound && !self.done_bound && self.outcome is None)
        &&& (self.phase is Subscribing ==> self.key_bound && self.data_bound && self.dest_bound
            && !self.done_bound && self.outcome is None)
        &&& (self.phase is Starting ==> self.key_bound && self.data_bound && self.dest_bound
            && self.done_bound && self.outcome is None)
        &&& (self.phase is Waiting ==> self.key_bound && self.data_bound && self.dest_bound
            && self.done_bound && self.outcome is None)
        &&& (self.phase is Revoking ==> self.outcome is Some)
        &&& (self.phase is Finished ==> !self.transaction_open() && self.outcome is Some)
    }

    /// The call the caller must perform next; nothing once finished.
    pub open spec fn spec_next_action(self) -> Option<OffloadAction> {
        match self.phase {
            OffloadPhase::Selecting => Some(OffloadAction::SelectAlgorithm),
            OffloadPhase::SharingKey => Some(OffloadAction::ShareKey),
            OffloadPhase::SharingData => Some(OffloadAction::ShareData),
            OffloadPhase::SharingDest => Some(OffloadAction::ShareDest),
            OffloadPhase::Subscribing => Some(OffloadAction::SubscribeDone),
            OffloadPhase::Starting => Some(OffloadAction::Run),
            OffloadPhase::Waiting => Some(OffloadAction::Wait),
            OffloadPhase::Revoking => Some(OffloadAction::Revoke),
            OffloadPhase::Finished => None,
        }
    }

    /// Which events can answer the pending action.
    pub open spec fn spec_expects(self, ev: OffloadEvent) -> bool {
        match self.phase {
            OffloadPhase::Selecting | OffloadPhase::SharingKey | OffloadPhase::SharingData
                | OffloadPhase::SharingDest | OffloadPhase::Subscribing
                | OffloadPhase::Starting => ev is Accepted || ev is Rejected,
            OffloadPhase::Waiting => ev is Completed || ev is Pending,
            OffloadPhase::Revoking => ev is Revoked,
            OffloadPhase::Finished => false,
        }
    }

    /// A fresh call: nothing shared, nothing decided, the configuration
    /// command up first.
    pub fn new() -> (r: OffloadClient)
        ensures
            r.phase is Selecting,
            !r.transaction_open(),
            r.outcome is None,
            r.wf(),
    {
        OffloadClient {
            phase: OffloadPhase::Selecting,
            key_bound: false,
            data_bound: false,
            dest_bound: false,
            done_bound: false,
            outcome: None,
        }
    }

    pub fn next_action(&self) -> (r: Option<OffloadAction>)
        ensures
            r == self.spec_next_action(),
    {
        match self.phase {
            OffloadPhase::Selecting => Some(OffloadAction::SelectAlgorithm),
            OffloadPhase::SharingKey => Some(OffloadAction::ShareKey),
            OffloadPhase::SharingData => Some(OffloadAction::ShareData),
            OffloadPhase::SharingDest => Some(OffloadAction::ShareDest),
            OffloadPhase::Subscribing => Some(OffloadAction::SubscribeDone),
            OffloadPhase::Starting => Some(OffloadAction::Run),
            OffloadPhase::Waiting => Some(OffloadAction::Wait),
            OffloadPhase::Revoking => Some(OffloadAction::Revoke),
            OffloadPhase::Finished => None,
        }
    }

    /// Feeds back what the performed call returned and moves the protocol
    /// on. A rejected configuration command finishes at once, before any
    /// buffer is shared; a rejection once the transaction is open, and
    /// every completion, goes through the revoke step first, so every exit
    /// path releases all bindings.
    pub fn step(&mut self, ev: OffloadEvent)
        requires
            old(self).wf(),
            old(self).spec_expects(ev),
        ensures
            final(self).wf(),
            old(self).phase is Selecting && ev is Accepted ==> *final(self) == (OffloadClient {
                phase: OffloadPhase::SharingKey,
                ..*old(self)
            }),
            (old(self).phase is Selecting ==> (ev matches OffloadEvent::Rejected(s)
                ==> *final(self) == (OffloadClient {
                phase: OffloadPhase::Finished,
                outcome: Some(Err(DriverError { status: s })),
                ..*old(self)
            }))),
            old(self).phase is SharingKey && ev is Accepted ==> *final(self) == (OffloadClient {
                phase: OffloadPhase::SharingData,
                key_bound: true,
                ..*old(self)
            }),
            old(self).phase is SharingData && ev is Accepted ==> *final(self) == (OffloadClient {
                phase: OffloadPhase::SharingDest,
                data_bound: true,
                ..*old(self)
            }),
            old(self).phase is SharingDest && ev is Accepted ==> *final(self) == (OffloadClient {
                phase: OffloadPhase::Subscribing,
                dest_bound: true,
                ..*old(self)
            }),
            old(self).phase is Subscribing && ev is Accepted ==> *final(self) == (OffloadClient {
                phase: OffloadPhase::Starting,
                done_bound: true,
                ..*old(self)
            }),
            old(self).phase is Starting && ev is Accepted ==> *final(self) == (OffloadClient {
                phase: OffloadPhase::Waiting,
                ..*old(self)
            }),
            (!(old(self).phase is Selecting) ==> (ev matches OffloadEvent::Rejected(s)
                ==> *final(self) == (OffloadClient {
                phase: OffloadPhase::Revoking,
                outcome: Some(Err(DriverError { status: s })),
                ..*old(self)
            }))),
            (ev matches OffloadEvent::Completed(c, v) ==> *final(self) == (OffloadClient {
                phase: OffloadPhase::Revoking,
                outcome: Some(Ok((c, v))),
                ..*old(self)
            })),
            ev is Pending ==> *final(self) == *old(self),
            ev is Revoked ==> *final(self) == (OffloadClient {
                phase: OffloadPhase::Finished,
                key_bound: false,
                data_bound: false,
                dest_bound: false,
                done_bound: false,
                ..*old(self)
            }),
            final(self).phase is Finished ==> !final(self).transaction_open(),
    {
        match ev {
            OffloadEvent::Accepted => {
                match self.phase {
                    OffloadPhase::Selecting => {
                        self.phase = OffloadPhase::SharingKey;
                    },
                    OffloadPhase::SharingKey => {
                        self.key_bound = true;
                        self.phase = OffloadPhase::SharingData;
                    },
                    OffloadPhase::SharingData => {
                        self.data_bound = true;
                        self.phase = OffloadPhase::SharingDest;
                    },
                    OffloadPhase::SharingDest => {
                        self.dest_bound = true;
                        self.phase = OffloadPhase::Subscribing;
                    },
                    OffloadPhase::Subscribing => {
                        self.done_bound = true;
                        self.phase = OffloadPhase::Starting;
                    },
                    OffloadPhase::Starting => {
                        self.phase = OffloadPhase::Waiting;
                    },
                    _ => vstd::pervasive::unreached(),
                }
            },
            OffloadEvent::Rejected(s) => {
                match self.phase {
                    OffloadPhase::Selecting => {
                        self.outcome = Some(Err(DriverError { status: s }));
                        self.phase = OffloadPhase::Finished;
                    },
                    OffloadPhase::SharingKey | OffloadPhase::SharingData
                        | OffloadPhase::SharingDest | OffloadPhase::Subscribing
                        | OffloadPhase::Starting => {
                        self.outcome = Some(Err(DriverError { status: s }));
                        self.phase = OffloadPhase::Revoking;
                    },
                    _ => vstd::pervasive::unreached(),
                }
            },
            OffloadEvent::Completed(c, v) => {
                self.outcome = Some(Ok((c, v)));
                self.phase = OffloadPhase::Revoking;
            },
            OffloadEvent::Pending => {},
            OffloadEvent::Revoked => {
                self.key_bound = false;
                self.data_bound = false;
                self.dest_bound = false;
                self.done_bound = false;
                self.phase = OffloadPhase::Finished;
            },
        }
    }
}

/// The transaction is strictly scope-bound: however an offload call ends,
/// success, system-call failure or driver-reported failure, a finished
/// call holds no binding, so the driver can no longer reach the caller's
/// key, data or destination buffers.
pub proof fn lemma_finished_call_holds_no_binding(c: OffloadClient)
    requires
        c.wf(),
        c.phase is Finished,
    ensures
        !c.transaction_open(),
{
}

} // verus!
