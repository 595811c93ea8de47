//! The outbound funnel: one slot through which callers hand requests to the
//! session that is live, first in, first out.

use crate::api::connection::RequestError;
use crate::api::events::frame::{GatewayRequestFrame, GatewayRequestFrameModel};
use crate::codec::{trim_text, trimmed};
use crate::json::{JsonModel, JsonValue};
use crate::json_text::{parse_json, parsed_json};
use crate::text::text_eq;
use vstd::prelude::*;

verus! {

/// The slot, as it is held.
enum Slot {
    Empty,
    Live { pending: Vec<String> },
    Closed,
}

/// The slot: empty, held by a live session with the requests that wait to be
/// sent, or held by a session that is being torn down.
pub enum FunnelModel {
    Empty,
    Live { pending: Seq<Seq<char>> },
    Closed,
}

/// The outbound funnel.
pub struct Funnel {
    slot: Slot,
}

impl View for Funnel {
    type V = FunnelModel;

    closed spec fn view(&self) -> FunnelModel {
        match self.slot {
            Slot::Empty => FunnelModel::Empty,
            Slot::Live { pending } => FunnelModel::Live { pending: pending.deep_view() },
            Slot::Closed => FunnelModel::Closed,
        }
    }
}

/// The slot after a payload was handed in, or why it was not taken.
pub open spec fn submitted(funnel: FunnelModel, payload: Seq<char>) -> Result<
    FunnelModel,
    RequestError,
> {
    match funnel {
        FunnelModel::Empty => Err(RequestError::NotConnected),
        FunnelModel::Live { pending } => Ok(FunnelModel::Live { pending: pending.push(payload) }),
        FunnelModel::Closed => Err(RequestError::ConnectionClosed),
    }
}

/// Why a parsed frame may not be handed in, if it may not: it must decode
/// as an envelope, and the `type` of the envelope must be `req`.
pub open spec fn submission_fault(parsed: Option<JsonModel>) -> Option<RequestError> {
    match parsed {
        None => Some(RequestError::InvalidJson),
        Some(m) => match GatewayRequestFrameModel::decoded(m) {
            None => Some(RequestError::InvalidJson),
            Some(frame) => if frame.frame_type == "req"@ {
                None
            } else {
                Some(RequestError::NotRequestFrame)
            },
        },
    }
}

/// Checks a parsed frame before it is handed in.
pub fn check_submission(parsed: Option<JsonValue>) -> (r: Result<(), RequestError>)
    ensures
        match submission_fault(parsed.deep_view()) {
            None => r is Ok,
            Some(e) => r == Err::<(), RequestError>(e),
        },
{
    let value = match parsed {
        Some(v) => v,
        None => {
            return Err(RequestError::InvalidJson);
        },
    };
    match GatewayRequestFrame::decode(&value) {
        None => Err(RequestError::InvalidJson),
        Some(frame) => {
            if text_eq(frame.frame_type.as_str(), "req") {
                Ok(())
            } else {
                Err(RequestError::NotRequestFrame)
            }
        },
    }
}

impl Funnel {
    /// An empty slot.
    pub fn new() -> (r: Funnel)
        ensures
            r@ == FunnelModel::Empty,
    {
        Funnel { slot: Slot::Empty }
    }

    /// Puts a new session into the slot, in place of whatever held it; no
    /// request waits yet.
    pub fn install(&mut self)
        ensures
            final(self)@ == (FunnelModel::Live { pending: Seq::empty() }),
    {
        let pending: Vec<String> = Vec::new();
        assert(pending.deep_view() =~= Seq::<Seq<char>>::empty());
        self.slot = Slot::Live { pending };
    }

    /// Marks the session in the slot as being torn down: the requests that
    /// wait are dropped and no more are taken. An empty slot stays empty.
    pub fn close(&mut self)
        ensures
            final(self)@ == if old(self)@ is Empty {
                FunnelModel::Empty
            } else {
                FunnelModel::Closed
            },
    {
        match &self.slot {
            Slot::Empty => {},
            _ => {
                self.slot = Slot::Closed;
            },
        }
    }

    /// Clears the slot.
    pub fn release(&mut self)
        ensures
            final(self)@ == FunnelModel::Empty,
    {
        self.slot = Slot::Empty;
    }

    /// Whether a live session holds the slot.
    pub fn is_live(&self) -> (r: bool)
        ensures
            r == (self@ is Live),
    {
        match &self.slot {
            Slot::Live { .. } => true,
            _ => false,
        }
    }

    /// Hands a payload to the live session, behind those that wait.
    pub fn submit(&mut self, payload: String) -> (r: Result<(), RequestError>)
        ensures
            match submitted(old(self)@, payload@) {
                Ok(after) => r is Ok && final(self)@ == after,
                Err(e) => r == Err::<(), RequestError>(e) && final(self)@ == old(self)@,
            },
    {
        match &mut self.slot {
            Slot::Empty => Err(RequestError::NotConnected),
            Slot::Live { pending } => {
                pending.push(payload);
                assert(pending.deep_view() =~= old(self)@->pending.push(payload@));
                Ok(())
            },
            Slot::Closed => Err(RequestError::ConnectionClosed),
        }
    }

    /// Takes the payload that has waited longest, for the session to send.
    pub fn take(&mut self) -> (r: Option<String>)
        ensures
            match old(self)@ {
                FunnelModel::Live { pending } => if pending.len() == 0 {
                    r is None && final(self)@ == old(self)@
                } else {
                    r matches Some(p) && p@ == pending[0] && final(self)@ == (FunnelModel::Live {
                        pending: pending.drop_first(),
                    })
                },
                _ => r is None && final(self)@ == old(self)@,
            },
    {
        match &mut self.slot {
            Slot::Live { pending } => {
                if pending.len() == 0 {
                    None
                } else {
                    let first = pending.remove(0);
                    assert(pending.deep_view() =~= old(self)@->pending.drop_first());
                    Some(first)
                }
            },
            _ => None,
        }
    }
}

/// Hands an encoded request frame to the live session: the text goes on as
/// it was handed in. The frame is checked before the slot is looked at: a
/// text that is no envelope, or an envelope whose `type` is not `req`, is
/// rejected whatever the slot holds.
pub fn send_gateway_request_frame(frame_json: String, funnel: &mut Funnel) -> (r: Result<
    (),
    RequestError,
>)
    ensures
        match submission_fault(parsed_json(trimmed(frame_json@))) {
            Some(e) => r == Err::<(), RequestError>(e) && final(funnel)@ == old(funnel)@,
            None => match submitted(old(funnel)@, frame_json@) {
                Ok(after) => r is Ok && final(funnel)@ == after,
                Err(e) => r == Err::<(), RequestError>(e) && final(funnel)@ == old(funnel)@,
            },
        },
{
    check_submission(parse_json(trim_text(frame_json.as_str())))?;
    funnel.submit(frame_json)
}

} // verus!
