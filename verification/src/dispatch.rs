//! The dispatch protocol: what the entry point is asked, and how the two calls
//! of one dispatch become a response.
use crate::response::{ConditionCode, Response, ReturnCode};
use crate::twain_h::{
    DAT_CALLBACK2, DAT_ENTRYPOINT, DAT_IDENTITY, DAT_IMAGENATIVEXFER, DAT_PARENT,
    DAT_PENDINGXFERS, DAT_STATUS, DAT_USERINTERFACE, DG_CONTROL, DG_IMAGE, MSG_CLOSEDS,
    MSG_CLOSEDSM, MSG_DISABLEDS, MSG_ENABLEDS, MSG_ENDXFER, MSG_GET, MSG_GETFIRST, MSG_GETNEXT,
    MSG_OPENDS, MSG_OPENDSM, MSG_REGISTER_CALLBACK, MSG_RESET, TWRC_SUCCESS,
};
use vstd::prelude::*;

verus! {

/// What one call asks of the entry point: data group, data argument type and
/// message.
#[derive(Debug, Copy, Clone, PartialEq, Eq, Structural)]
pub struct Triplet {
    pub dg: u32,
    pub dat: u16,
    pub msg: u16,
}

/// To whom a call is addressed: the manager, with no destination identity, or
/// the source of the session, with its identity as destination.
#[derive(Debug, Copy, Clone, PartialEq, Eq, Structural)]
pub enum Destination {
    Manager,
    Source,
}

/// The operations that the sessions dispatch.
#[derive(Debug, Copy, Clone, PartialEq, Eq, Structural)]
pub enum Operation {
    OpenManager,
    CloseManager,
    GetEntryPoints,
    GetFirstSource,
    GetNextSource,
    OpenSource,
    CloseSource,
    RegisterCallback,
    EnableSource,
    DisableSource,
    ResetPendingTransfers,
    GetNativeImage,
    EndTransfer,
}

impl Operation {
    /// The triplet that asks for the operation.
    pub open spec fn spec_triplet(&self) -> Triplet {
        match *self {
            Operation::OpenManager => Triplet { dg: DG_CONTROL, dat: DAT_PARENT, msg: MSG_OPENDSM },
            Operation::CloseManager => Triplet {
                dg: DG_CONTROL,
                dat: DAT_PARENT,
                msg: MSG_CLOSEDSM,
            },
            Operation::GetEntryPoints => Triplet {
                dg: DG_CONTROL,
                dat: DAT_ENTRYPOINT,
                msg: MSG_GET,
            },
            Operation::GetFirstSource => Triplet {
                dg: DG_CONTROL,
                dat: DAT_IDENTITY,
                msg: MSG_GETFIRST,
            },
            Operation::GetNextSource => Triplet {
                dg: DG_CONTROL,
                dat: DAT_IDENTITY,
                msg: MSG_GETNEXT,
            },
            Operation::OpenSource => Triplet { dg: DG_CONTROL, dat: DAT_IDENTITY, msg: MSG_OPENDS },
            Operation::CloseSource => Triplet {
                dg: DG_CONTROL,
                dat: DAT_IDENTITY,
                msg: MSG_CLOSEDS,
            },
            Operation::RegisterCallback => Triplet {
                dg: DG_CONTROL,
                dat: DAT_CALLBACK2,
                msg: MSG_REGISTER_CALLBACK,
            },
            Operation::EnableSource => Triplet {
                dg: DG_CONTROL,
                dat: DAT_USERINTERFACE,
                msg: MSG_ENABLEDS,
            },
            Operation::DisableSource => Triplet {
                dg: DG_CONTROL,
                dat: DAT_USERINTERFACE,
                msg: MSG_DISABLEDS,
            },
            Operation::ResetPendingTransfers => Triplet {
                dg: DG_CONTROL,
                dat: DAT_PENDINGXFERS,
                msg: MSG_RESET,
            },
            Operation::GetNativeImage => Triplet {
                dg: DG_IMAGE,
                dat: DAT_IMAGENATIVEXFER,
                msg: MSG_GET,
            },
            Operation::EndTransfer => Triplet {
                dg: DG_CONTROL,
                dat: DAT_PENDINGXFERS,
                msg: MSG_ENDXFER,
            },
        }
    }

    /// To whom the operation is addressed. Opening, closing and listing sources
    /// is asked of the manager, with the source's identity as the data.
    pub open spec fn spec_destination(&self) -> Destination {
        match *self {
            Operation::OpenManager
            | Operation::CloseManager
            | Operation::GetEntryPoints
            | Operation::GetFirstSource
            | Operation::GetNextSource
            | Operation::OpenSource
            | Operation::CloseSource => Destination::Manager,
            Operation::RegisterCallback
            | Operation::EnableSource
            | Operation::DisableSource
            | Operation::ResetPendingTransfers
            | Operation::GetNativeImage
            | Operation::EndTransfer => Destination::Source,
        }
    }

    /// The triplet that asks for the operation.
    #[verifier::when_used_as_spec(spec_triplet)]
    pub fn triplet(&self) -> (t: Triplet)
        ensures
            t == self.spec_triplet(),
    {
        match *self {
            Operation::OpenManager => Triplet { dg: DG_CONTROL, dat: DAT_PARENT, msg: MSG_OPENDSM },
            Operation::CloseManager => Triplet {
                dg: DG_CONTROL,
                dat: DAT_PARENT,
                msg: MSG_CLOSEDSM,
            },
            Operation::GetEntryPoints => Triplet {
                dg: DG_CONTROL,
                dat: DAT_ENTRYPOINT,
                msg: MSG_GET,
            },
            Operation::GetFirstSource => Triplet {
                dg: DG_CONTROL,
                dat: DAT_IDENTITY,
                msg: MSG_GETFIRST,
            },
            Operation::GetNextSource => Triplet {
                dg: DG_CONTROL,
                dat: DAT_IDENTITY,
                msg: MSG_GETNEXT,
            },
            Operation::OpenSource => Triplet { dg: DG_CONTROL, dat: DAT_IDENTITY, msg: MSG_OPENDS },
            Operation::CloseSource => Triplet {
                dg: DG_CONTROL,
                dat: DAT_IDENTITY,
                msg: MSG_CLOSEDS,
            },
            Operation::RegisterCallback => Triplet {
                dg: DG_CONTROL,
                dat: DAT_CALLBACK2,
                msg: MSG_REGISTER_CALLBACK,
            },
            Operation::EnableSource => Triplet {
                dg: DG_CONTROL,
                dat: DAT_USERINTERFACE,
                msg: MSG_ENABLEDS,
            },
            Operation::DisableSource => Triplet {
                dg: DG_CONTROL,
                dat: DAT_USERINTERFACE,
                msg: MSG_DISABLEDS,
            },
            Operation::ResetPendingTransfers => Triplet {
                dg: DG_CONTROL,
                dat: DAT_PENDINGXFERS,
                msg: MSG_RESET,
            },
            Operation::GetNativeImage => Triplet {
                dg: DG_IMAGE,
                dat: DAT_IMAGENATIVEXFER,
                msg: MSG_GET,
            },
            Operation::EndTransfer => Triplet {
                dg: DG_CONTROL,
                dat: DAT_PENDINGXFERS,
                msg: MSG_ENDXFER,
            },
        }
    }

    /// To whom the operation is addressed.
    #[verifier::when_used_as_spec(spec_destination)]
    pub fn destination(&self) -> (d: Destination)
        ensures
            d == self.spec_destination(),
    {
        match *self {
            Operation::OpenManager
            | Operation::CloseManager
            | Operation::GetEntryPoints
            | Operation::GetFirstSource
            | Operation::GetNextSource
            | Operation::OpenSource
            | Operation::CloseSource => Destination::Manager,
            Operation::RegisterCallback
            | Operation::EnableSource
            | Operation::DisableSource
            | Operation::ResetPendingTransfers
            | Operation::GetNativeImage
            | Operation::EndTransfer => Destination::Source,
        }
    }
}

/// The triplet of the status query that follows every call.
pub open spec fn status_triplet() -> Triplet {
    Triplet { dg: DG_CONTROL, dat: DAT_STATUS, msg: MSG_GET }
}

/// The response of a dispatch whose requested call returned `rc` and whose
/// status query returned `status_rc` and left `status_cc` in the status buffer.
/// The condition code is read only where the status query succeeded.
pub open spec fn dispatch_response(rc: u16, status_rc: u16, status_cc: u16) -> Response {
    Response {
        return_code: ReturnCode::decode(rc),
        condition_code: if status_rc == TWRC_SUCCESS {
            ConditionCode::decode(status_cc)
        } else {
            ConditionCode::NoConditionCode(ReturnCode::decode(status_rc))
        },
    }
}

/// One call of the entry point: what it asks, and to whom it is addressed. The
/// origin of every call is the identity of the application.
#[derive(Debug, Copy, Clone, PartialEq, Eq, Structural)]
pub struct Call {
    pub triplet: Triplet,
    pub destination: Destination,
}

/// A dispatch before its first call. One dispatch is two calls of the entry
/// point with the same origin and destination: the requested one, then the
/// status query, whatever the first returned.
pub struct Dispatch {
    call: Call,
}

/// A dispatch between its two calls: the requested call has returned, the
/// status query has not.
pub struct StatusQuery {
    rc: u16,
    destination: Destination,
}

impl Dispatch {
    /// The first call of the dispatch.
    pub closed spec fn requested(&self) -> Call {
        self.call
    }

    /// Begins the dispatch of `triplet` to `destination`.
    pub fn new(triplet: Triplet, destination: Destination) -> (d: Dispatch)
        ensures
            d.requested() == (Call { triplet, destination }),
    {
        Dispatch { call: Call { triplet, destination } }
    }

    /// Begins the dispatch of an operation of the sessions, to the destination
    /// that the operation is addressed to.
    pub fn of(op: Operation) -> (d: Dispatch)
        ensures
            d.requested() == (Call { triplet: op.spec_triplet(), destination: op.spec_destination() }),
    {
        Dispatch { call: Call { triplet: op.triplet(), destination: op.destination() } }
    }

    /// The first call to make: what the dispatch was begun with.
    pub fn call(&self) -> (c: Call)
        ensures
            c == self.requested(),
    {
        self.call
    }

    /// Takes the raw code that the first call returned.
    pub fn returned(self, rc: u16) -> (q: StatusQuery)
        ensures
            q.first_rc() == rc,
            q.destination() == self.requested().destination,
    {
        StatusQuery { rc, destination: self.call.destination }
    }
}

impl StatusQuery {
    /// The raw code that the first call returned.
    pub closed spec fn first_rc(&self) -> u16 {
        self.rc
    }

    /// To whom the first call was addressed.
    pub closed spec fn destination(&self) -> Destination {
        self.destination
    }

    /// The second call to make: always the status query, addressed as the first
    /// call was. Its data is a zeroed status buffer.
    pub fn call(&self) -> (c: Call)
        ensures
            c == (Call { triplet: status_triplet(), destination: self.destination() }),
    {
        Call {
            triplet: Triplet { dg: DG_CONTROL, dat: DAT_STATUS, msg: MSG_GET },
            destination: self.destination,
        }
    }

    /// Takes the raw code that the status query returned and the condition code
    /// in its buffer, and ends the dispatch. The return code is that of the
    /// first call. The condition code is the decoded `status_cc` where the
    /// query succeeded, else `NoConditionCode` with what the query returned.
    pub fn returned(self, status_rc: u16, status_cc: u16) -> (res: Response)
        ensures
            res == dispatch_response(self.first_rc(), status_rc, status_cc),
    {
        let return_code = ReturnCode::from_rc(self.rc);
        let status_return_code = ReturnCode::from_rc(status_rc);
        let condition_code = if matches!(status_return_code, ReturnCode::Success) {
            ConditionCode::from_cc(status_cc)
        } else {
            ConditionCode::NoConditionCode(status_return_code)
        };
        Response { return_code, condition_code }
    }
}

/// A dispatch succeeds exactly when its first call returned the success code;
/// its condition code is missing exactly when the status query did not, and
/// then carries what the query returned, whatever the first call did.
pub proof fn lemma_dispatch_response(rc: u16, status_rc: u16, status_cc: u16)
    ensures
        dispatch_response(rc, status_rc, status_cc).is_success() <==> rc == TWRC_SUCCESS,
        dispatch_response(rc, status_rc, status_cc).return_code.code() == rc,
        status_rc == TWRC_SUCCESS ==> dispatch_response(rc, status_rc, status_cc).condition_code.code()
            == Some(status_cc),
        status_rc != TWRC_SUCCESS ==> dispatch_response(rc, status_rc, status_cc).condition_code
            == ConditionCode::NoConditionCode(ReturnCode::decode(status_rc)),
{
}

} // verus!
