use vstd::prelude::*;
use crate::dispatch::FaultFlag;
use crate::rpc::{AddScheduleRequest, AddScheduleResponse, DeleteScheduleRequest};
use crate::store::StoreError;

verus! {

/// A request whose payload could not be read.
#[derive(Clone, Copy, Debug, PartialEq, Eq, Structural)]
pub enum DecodeError {
    Malformed,
}

/// Whether a command handler still serves its subject.
#[derive(Clone, Copy, Debug, PartialEq, Eq, Structural)]
pub enum HandlerState {
    Serving,
    Stopped,
}

/// What the add handler does once the store answered an insert.
#[derive(Debug)]
pub enum AddReply {
    /// Publish `response` to the reply address `to`.
    Send { to: String, response: AddScheduleResponse },
    /// The request carried no reply address: answer nothing.
    Skip,
    /// The handler has stopped: take no more requests.
    Stop,
}

/// The decisions of the handler of add requests. Any failure stops it for
/// good and raises the fault flag.
#[derive(Clone, Copy, Debug, PartialEq, Eq, Structural)]
pub struct AddScheduleHandler {
    pub state: HandlerState,
}

/// The decisions of the handler of delete requests. Any failure stops it
/// for good and raises the fault flag; it never replies.
#[derive(Clone, Copy, Debug, PartialEq, Eq, Structural)]
pub struct DeleteScheduleHandler {
    pub state: HandlerState,
}

/// Stops a handler: its subscription ends and the dispatch loop is told.
fn stop(state: &mut HandlerState, fault: &mut FaultFlag)
    ensures
        *final(state) == HandlerState::Stopped,
        final(fault).raised,
{
    *state = HandlerState::Stopped;
    fault.raise();
}

impl AddScheduleHandler {
    pub fn new() -> (r: AddScheduleHandler)
        ensures
            r.state == HandlerState::Serving,
    {
        AddScheduleHandler { state: HandlerState::Serving }
    }

    /// A request arrived, decoded or not. A serving handler hands a decoded
    /// request on to be inserted; a malformed one stops it. A stopped
    /// handler takes nothing.
    pub fn on_request(&mut self, decoded: Result<AddScheduleRequest, DecodeError>, fault: &mut FaultFlag) -> (r: Option<AddScheduleRequest>)
        ensures
            old(self).state == HandlerState::Stopped ==> r is None && *final(self) == *old(self)
                && *final(fault) == *old(fault),
            old(self).state == HandlerState::Serving && decoded is Ok ==> r == Some(decoded->Ok_0)
                && *final(self) == *old(self) && *final(fault) == *old(fault),
            old(self).state == HandlerState::Serving && decoded is Err ==> r is None
                && final(self).state == HandlerState::Stopped && final(fault).raised,
    {
        if self.state == HandlerState::Stopped {
            return None;
        }
        match decoded {
            Ok(req) => Some(req),
            Err(_) => {
                stop(&mut self.state, fault);
                None
            },
        }
    }

    /// The store answered an insert. On success the id goes back to the
    /// reply address, if the request carried one; a store error stops the
    /// handler.
    pub fn on_inserted(&mut self, result: Result<AddScheduleResponse, StoreError>, reply_to: Option<String>, fault: &mut FaultFlag) -> (r: AddReply)
        ensures
            old(self).state == HandlerState::Stopped ==> r is Stop && *final(self) == *old(self)
                && *final(fault) == *old(fault),
            old(self).state == HandlerState::Serving && result is Ok ==> *final(self) == *old(self)
                && *final(fault) == *old(fault) && match reply_to {
                    Some(to) => r == AddReply::Send { to, response: result->Ok_0 },
                    None => r is Skip,
                },
            old(self).state == HandlerState::Serving && result is Err ==> r is Stop
                && final(self).state == HandlerState::Stopped && final(fault).raised,
    {
        if self.state == HandlerState::Stopped {
            return AddReply::Stop;
        }
        match result {
            Ok(response) => match reply_to {
                Some(to) => AddReply::Send { to, response },
                None => AddReply::Skip,
            },
            Err(_) => {
                stop(&mut self.state, fault);
                AddReply::Stop
            },
        }
    }

    /// The subscription closed, or an answer could not be sent: the
    /// handler stops.
    pub fn on_closed(&mut self, fault: &mut FaultFlag)
        ensures
            final(self).state == HandlerState::Stopped,
            final(fault).raised,
    {
        stop(&mut self.state, fault);
    }
}

impl DeleteScheduleHandler {
    pub fn new() -> (r: DeleteScheduleHandler)
        ensures
            r.state == HandlerState::Serving,
    {
        DeleteScheduleHandler { state: HandlerState::Serving }
    }

    /// A request arrived, decoded or not. A serving handler hands the id of
    /// a decoded request on to be deleted; a malformed one stops it. A
    /// stopped handler takes nothing.
    pub fn on_request(&mut self, decoded: Result<DeleteScheduleRequest, DecodeError>, fault: &mut FaultFlag) -> (r: Option<i64>)
        ensures
            old(self).state == HandlerState::Stopped ==> r is None && *final(self) == *old(self)
                && *final(fault) == *old(fault),
            old(self).state == HandlerState::Serving && decoded is Ok ==> r == Some(decoded->Ok_0.id)
                && *final(self) == *old(self) && *final(fault) == *old(fault),
            old(self).state == HandlerState::Serving && decoded is Err ==> r is None
                && final(self).state == HandlerState::Stopped && final(fault).raised,
    {
        if self.state == HandlerState::Stopped {
            return None;
        }
        match decoded {
            Ok(req) => Some(req.id),
            Err(_) => {
                stop(&mut self.state, fault);
                None
            },
        }
    }

    /// The store answered a delete: the handler goes on after a success and
    /// stops after an error. Returns whether it still serves.
    pub fn on_deleted(&mut self, result: Result<(), StoreError>, fault: &mut FaultFlag) -> (r: bool)
        ensures
            r == (final(self).state == HandlerState::Serving),
            old(self).state == HandlerState::Stopped ==> !r && *final(self) == *old(self)
                && *final(fault) == *old(fault),
            old(self).state == HandlerState::Serving && result is Ok ==> r && *final(self) == *old(self)
                && *final(fault) == *old(fault),
            old(self).state == HandlerState::Serving && result is Err ==> !r && final(fault).raised,
    {
        if self.state == HandlerState::Stopped {
            return false;
        }
        match result {
            Ok(()) => true,
            Err(_) => {
                stop(&mut self.state, fault);
                false
            },
        }
    }

    /// The subscription closed: the handler stops.
    pub fn on_closed(&mut self, fault: &mut FaultFlag)
        ensures
            final(self).state == HandlerState::Stopped,
            final(fault).raised,
    {
        stop(&mut self.state, fault);
    }
}

} // verus!
