//! The handshake as a state machine. The caller performs each network step
//! and hands its outcome in; the session decides the next state.
use vstd::prelude::*;

use crate::banner::{banner_of, strip_line_end, Banner};
use crate::error::HandshakeError;
use crate::kex_init::{kex_init_from_packet, KeyExchangeInit};

verus! {

/// Where a handshake stands.
#[derive(Debug, Clone, Copy, PartialEq, Eq, Structural)]
pub enum HandshakeState {
    Idle,
    Connected,
    BannerExchanged,
    KexInitReceived,
    Failed,
    /// Kept for the key exchange that follows; no step here leads to it.
    Established,
}

/// How a network step ended.
#[derive(Debug, Clone, Copy, PartialEq, Eq, Structural)]
pub enum IoOutcome {
    Done,
    Failed,
    TimedOut,
}

/// The failure that a network step that did not complete stands for.
pub open spec fn io_error(outcome: IoOutcome) -> HandshakeError {
    if outcome == IoOutcome::TimedOut {
        HandshakeError::Timeout
    } else {
        HandshakeError::ConnectionError
    }
}

fn io_failure(outcome: IoOutcome) -> (r: HandshakeError)
    ensures
        r == io_error(outcome),
{
    match outcome {
        IoOutcome::TimedOut => HandshakeError::Timeout,
        _ => HandshakeError::ConnectionError,
    }
}

/// What a session stands for: its state, and whether the peer's banner has
/// been accepted while the own banner is still to be sent.
pub struct SessionView {
    pub state: HandshakeState,
    pub peer_banner_accepted: bool,
}

/// One client handshake, driven one step at a time.
pub struct Session {
    state: HandshakeState,
    peer_banner_accepted: bool,
}

impl View for Session {
    type V = SessionView;

    closed spec fn view(&self) -> SessionView {
        SessionView { state: self.state, peer_banner_accepted: self.peer_banner_accepted }
    }
}

impl Session {
    /// A session that has not connected yet.
    pub fn new() -> (r: Session)
        ensures
            r@ == (SessionView { state: HandshakeState::Idle, peer_banner_accepted: false }),
    {
        Session { state: HandshakeState::Idle, peer_banner_accepted: false }
    }

    /// The current state.
    pub fn state(&self) -> (r: HandshakeState)
        ensures
            r == self@.state,
    {
        self.state
    }

    /// Records how connecting ended. Allowed only while idle.
    pub fn connected(&mut self, outcome: IoOutcome) -> (r: Result<(), HandshakeError>)
        ensures
            old(self)@.state != HandshakeState::Idle ==> (r matches Err(HandshakeError::InvalidState)
                && final(self)@ == old(self)@),
            old(self)@.state == HandshakeState::Idle && outcome == IoOutcome::Done ==> r is Ok
                && final(self)@ == (SessionView {
                state: HandshakeState::Connected,
                peer_banner_accepted: false,
            }),
            old(self)@.state == HandshakeState::Idle && outcome != IoOutcome::Done ==> r == Err::<
                (),
                HandshakeError,
            >(io_error(outcome)) && final(self)@ == (SessionView {
                state: HandshakeState::Failed,
                peer_banner_accepted: false,
            }),
    {
        if self.state != HandshakeState::Idle {
            return Err(HandshakeError::InvalidState);
        }
        match outcome {
            IoOutcome::Done => {
                self.state = HandshakeState::Connected;
                self.peer_banner_accepted = false;
                Ok(())
            },
            _ => {
                self.state = HandshakeState::Failed;
                self.peer_banner_accepted = false;
                Err(io_failure(outcome))
            },
        }
    }

    /// Records the peer's banner line, read with the given outcome. Allowed
    /// once, while connected. An accepted banner is returned, and the own
    /// banner is then to be sent.
    pub fn banner_received(&mut self, outcome: IoOutcome, line: &[u8]) -> (r: Result<
        Banner,
        HandshakeError,
    >)
        ensures
            !(old(self)@.state == HandshakeState::Connected && !old(self)@.peer_banner_accepted)
                ==> (r matches Err(HandshakeError::InvalidState) && final(self)@ == old(self)@),
            old(self)@.state == HandshakeState::Connected && !old(self)@.peer_banner_accepted ==> {
                if outcome != IoOutcome::Done {
                    r == Err::<Banner, HandshakeError>(io_error(outcome)) && final(self)@ == (
                    SessionView { state: HandshakeState::Failed, ..old(self)@ })
                } else {
                    match banner_of(line@) {
                        Some(v) => r matches Ok(b) && b@ == v && final(self)@ == (SessionView {
                            state: HandshakeState::Connected,
                            peer_banner_accepted: true,
                        }),
                        None => r matches Err(HandshakeError::UnsupportedVersion(t)) && t@
                            == strip_line_end(line@) && final(self)@ == (SessionView {
                            state: HandshakeState::Failed,
                            ..old(self)@
                        }),
                    }
                }
            },
    {
        if self.state != HandshakeState::Connected || self.peer_banner_accepted {
            return Err(HandshakeError::InvalidState);
        }
        if outcome != IoOutcome::Done {
            self.state = HandshakeState::Failed;
            return Err(io_failure(outcome));
        }
        match Banner::parse(line) {
            Ok(b) => {
                self.peer_banner_accepted = true;
                Ok(b)
            },
            Err(e) => {
                self.state = HandshakeState::Failed;
                Err(e)
            },
        }
    }

    /// Records how sending the own banner ended. Allowed once the peer's
    /// banner was accepted; completes the banner exchange.
    pub fn banner_sent(&mut self, outcome: IoOutcome) -> (r: Result<(), HandshakeError>)
        ensures
            !(old(self)@.state == HandshakeState::Connected && old(self)@.peer_banner_accepted)
                ==> (r matches Err(HandshakeError::InvalidState) && final(self)@ == old(self)@),
            old(self)@.state == HandshakeState::Connected && old(self)@.peer_banner_accepted ==> {
                if outcome == IoOutcome::Done {
                    r is Ok && final(self)@ == (SessionView {
                        state: HandshakeState::BannerExchanged,
                        ..old(self)@
                    })
                } else {
                    r == Err::<(), HandshakeError>(io_error(outcome)) && final(self)@ == (
                    SessionView { state: HandshakeState::Failed, ..old(self)@ })
                }
            },
    {
        if self.state != HandshakeState::Connected || !self.peer_banner_accepted {
            return Err(HandshakeError::InvalidState);
        }
        if outcome != IoOutcome::Done {
            self.state = HandshakeState::Failed;
            return Err(io_failure(outcome));
        }
        self.state = HandshakeState::BannerExchanged;
        Ok(())
    }

    /// Records the negotiation packet, read with the given outcome, and
    /// decodes it. Allowed once the banners were exchanged; a decoding failure
    /// ends the session.
    pub fn packet_received(&mut self, outcome: IoOutcome, raw: &[u8]) -> (r: Result<
        KeyExchangeInit,
        HandshakeError,
    >)
        ensures
            old(self)@.state != HandshakeState::BannerExchanged ==> (r matches Err(
                HandshakeError::InvalidState,
            ) && final(self)@ == old(self)@),
            old(self)@.state == HandshakeState::BannerExchanged ==> {
                if outcome != IoOutcome::Done {
                    r == Err::<KeyExchangeInit, HandshakeError>(io_error(outcome)) && final(self)@
                        == (SessionView { state: HandshakeState::Failed, ..old(self)@ })
                } else {
                    match kex_init_from_packet(raw@) {
                        Ok(m) => r matches Ok(k) && k@ == m && final(self)@ == (SessionView {
                            state: HandshakeState::KexInitReceived,
                            ..old(self)@
                        }),
                        Err(e) => r == Err::<KeyExchangeInit, HandshakeError>(
                            HandshakeError::Decode(e),
                        ) && final(self)@ == (SessionView {
                            state: HandshakeState::Failed,
                            ..old(self)@
                        }),
                    }
                }
            },
    {
        if self.state != HandshakeState::BannerExchanged {
            return Err(HandshakeError::InvalidState);
        }
        if outcome != IoOutcome::Done {
            self.state = HandshakeState::Failed;
            return Err(io_failure(outcome));
        }
        match KeyExchangeInit::from_raw(raw) {
            Ok(k) => {
                self.state = HandshakeState::KexInitReceived;
                Ok(k)
            },
            Err(e) => {
                self.state = HandshakeState::Failed;
                Err(HandshakeError::Decode(e))
            },
        }
    }
}

} // verus!
