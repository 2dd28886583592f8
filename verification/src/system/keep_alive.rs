//! The stage that probes whether the client of each player still answers.

use vstd::prelude::*;

use crate::components::{KeepAlive, LoginState};

verus! {

/// A client that has answered is probed again after fifteen seconds.
pub const KEEP_ALIVE_INTERVAL_NANOS: u64 = 15_000_000_000;

/// A client that has not answered for thirty seconds is given up.
pub const KEEP_ALIVE_TIMEOUT_NANOS: u64 = 30_000_000_000;

/// What the stage asks the network to do for one player.
#[derive(Clone, Copy, Debug, PartialEq, Eq, Structural)]
pub enum KeepAliveAction {
    /// Nothing is due.
    Nothing,
    /// A keep-alive is to be sent.
    SendPing,
    /// The client has timed out and is to be disconnected.
    Disconnect,
}

/// The time from `sent` to `now`, zero where the clock went back.
pub open spec fn since(sent: u64, now: u64) -> int {
    if now >= sent {
        now - sent
    } else {
        0
    }
}

/// The records of a player after the stage at `now`, and what is asked of
/// the network.
///
/// Only a player in `Play` is probed. The first probe goes out at once. A
/// probe that was answered is followed by the next one an interval later. A
/// probe that stays unanswered until the timeout ends the connection.
pub open spec fn keep_alive_spec(keep_alive: KeepAlive, login_state: LoginState, now: u64) -> (
    KeepAlive,
    LoginState,
    KeepAliveAction,
) {
    let ping = KeepAlive { last_sent: Some(now), unresponded: true };
    if login_state != LoginState::Play {
        (keep_alive, login_state, KeepAliveAction::Nothing)
    } else {
        match keep_alive.last_sent {
            None => (ping, login_state, KeepAliveAction::SendPing),
            Some(sent) => if keep_alive.unresponded {
                if since(sent, now) >= KEEP_ALIVE_TIMEOUT_NANOS {
                    (keep_alive, LoginState::Terminate, KeepAliveAction::Disconnect)
                } else {
                    (keep_alive, login_state, KeepAliveAction::Nothing)
                }
            } else if since(sent, now) >= KEEP_ALIVE_INTERVAL_NANOS {
                (ping, login_state, KeepAliveAction::SendPing)
            } else {
                (keep_alive, login_state, KeepAliveAction::Nothing)
            },
        }
    }
}

/// Runs the stage for one player at `now`.
pub fn keep_alive(record: &mut KeepAlive, login_state: &mut LoginState, now: u64) -> (action:
    KeepAliveAction)
    ensures
        (*final(record), *final(login_state), action) == keep_alive_spec(
            *old(record),
            *old(login_state),
            now,
        ),
        action == KeepAliveAction::SendPing ==> final(record).unresponded && !(old(
            record,
        ).unresponded && old(record).last_sent is Some),
        old(record).wf() ==> final(record).wf(),
{
    match login_state {
        LoginState::Play => {},
        _ => {
            return KeepAliveAction::Nothing;
        },
    }
    match record.last_sent {
        None => {
            record.last_sent = Some(now);
            record.unresponded = true;
            KeepAliveAction::SendPing
        },
        Some(sent) => {
            let waited: u64 = if now >= sent {
                now - sent
            } else {
                0
            };
            if record.unresponded {
                if waited >= KEEP_ALIVE_TIMEOUT_NANOS {
                    *login_state = LoginState::Terminate;
                    KeepAliveAction::Disconnect
                } else {
                    KeepAliveAction::Nothing
                }
            } else if waited >= KEEP_ALIVE_INTERVAL_NANOS {
                record.last_sent = Some(now);
                record.unresponded = true;
                KeepAliveAction::SendPing
            } else {
                KeepAliveAction::Nothing
            }
        },
    }
}

/// Takes note that the client has answered.
pub fn keep_alive_pong(record: &mut KeepAlive)
    ensures
        *final(record) == (KeepAlive { unresponded: false, ..*old(record) }),
{
    record.unresponded = false;
}

/// What can happen to a connection, as far as keep-alives go.
pub enum ConnectionEvent {
    /// The keep-alive stage runs at `now`.
    Stage { now: u64 },
    /// The client answers.
    Pong,
    /// The connection is asked to move on to the phase `next`.
    Phase { next: LoginState },
}

/// A connection, with the keep-alives that are on their way unanswered.
pub struct Connection {
    pub keep_alive: KeepAlive,
    pub login_state: LoginState,
    pub unanswered: nat,
}

impl Connection {
    /// A connection to which nothing has been sent yet.
    pub open spec fn fresh() -> Connection {
        Connection {
            keep_alive: KeepAlive { last_sent: None, unresponded: false },
            login_state: LoginState::Handshake,
            unanswered: 0,
        }
    }

    /// The connection after `event`: a keep-alive that is sent is one more
    /// unanswered, and an answer is one less.
    pub open spec fn after(self, event: ConnectionEvent) -> Connection {
        match event {
            ConnectionEvent::Stage { now } => {
                let (keep_alive, login_state, action) = keep_alive_spec(
                    self.keep_alive,
                    self.login_state,
                    now,
                );
                Connection {
                    keep_alive,
                    login_state,
                    unanswered: if action == KeepAliveAction::SendPing {
                        self.unanswered + 1
                    } else {
                        self.unanswered
                    },
                }
            },
            ConnectionEvent::Pong => Connection {
                keep_alive: KeepAlive { unresponded: false, ..self.keep_alive },
                login_state: self.login_state,
                unanswered: if self.unanswered > 0 {
                    (self.unanswered - 1) as nat
                } else {
                    0
                },
            },
            ConnectionEvent::Phase { next } => Connection {
                login_state: if self.login_state.may_become(next) {
                    next
                } else {
                    self.login_state
                },
                ..self
            },
        }
    }

    /// The connection after `events`, in order.
    pub open spec fn after_all(self, events: Seq<ConnectionEvent>) -> Connection
        decreases events.len(),
    {
        if events.len() == 0 {
            self
        } else {
            self.after_all(events.drop_last()).after(events.last())
        }
    }
}

/// Whatever happens to a connection and in whatever order, at most one
/// keep-alive is unanswered at any time, and one is exactly if the record
/// says so.
pub proof fn lemma_at_most_one_unanswered(events: Seq<ConnectionEvent>)
    ensures
        Connection::fresh().after_all(events).unanswered <= 1,
        Connection::fresh().after_all(events).unanswered == 1 <==> Connection::fresh().after_all(
            events,
        ).keep_alive.unresponded,
        Connection::fresh().after_all(events).keep_alive.wf(),
    decreases events.len(),
{
    if events.len() > 0 {
        lemma_at_most_one_unanswered(events.drop_last());
    }
}

} // verus!
