//! Decoding of raw result codes into return codes, condition codes and responses.
use crate::decimal::{decimal, push_decimal};
use crate::twain_h::{
    TWCC_BADCAP, TWCC_BADDEST, TWCC_BADPROTOCOL, TWCC_BADVALUE, TWCC_BUMMER,
    TWCC_CAPBADOPERATION, TWCC_CAPSEQERROR, TWCC_CAPUNSUPPORTED, TWCC_CHECKDEVICEONLINE,
    TWCC_DAMAGEDCORNER, TWCC_DENIED, TWCC_DOCTOODARK, TWCC_DOCTOOLIGHT, TWCC_FILEEXISTS,
    TWCC_FILENOTFOUND, TWCC_FILEWRITEERROR, TWCC_FOCUSERROR, TWCC_INTERLOCK, TWCC_LOWMEMORY,
    TWCC_MAXCONNECTIONS, TWCC_NODS, TWCC_NOMEDIA, TWCC_NOTEMPTY, TWCC_OPERATIONERROR,
    TWCC_PAPERDOUBLEFEED, TWCC_PAPERJAM, TWCC_SEQERROR, TWCC_SUCCESS, TWRC_BUSY, TWRC_CANCEL,
    TWRC_CHECKSTATUS, TWRC_DATANOTAVAILABLE, TWRC_DSEVENT, TWRC_ENDOFLIST, TWRC_FAILURE,
    TWRC_INFONOTSUPPORTED, TWRC_NOTDSEVENT, TWRC_SCANNERLOCKED, TWRC_SUCCESS, TWRC_XFERDONE,
};
use vstd::prelude::*;
use vstd::string::StringExecFns;

verus! {

/// Outcome of one call through the entry point.
#[derive(Debug, Copy, Clone, PartialEq, Eq, Structural)]
pub enum ReturnCode {
    Success,
    Failure,
    CheckStatus,
    Cancel,
    DSEvent,
    NotDSEvent,
    XferDone,
    EndOfList,
    InfoNotSupported,
    DataNotAvailable,
    Busy,
    ScannerLocked,
    /// A code outside the protocol's own set, kept as the driver gave it.
    Unknown(u16),
}

/// Reason attached to a return code by the status query that follows every call.
#[derive(Debug, Copy, Clone, PartialEq, Eq, Structural)]
pub enum ConditionCode {
    /// The status query itself did not succeed; carries what it returned.
    NoConditionCode(ReturnCode),
    Success,
    Bummer,
    LowMemory,
    NoDS,
    MaxConnections,
    OperationError,
    BadCap,
    BadProtocol,
    BadValue,
    SeqError,
    BadDest,
    CapUnsupported,
    CapBadOperation,
    CapSeqError,
    Denied,
    FileExists,
    FileNotFound,
    NotEmpty,
    PaperJam,
    PaperDoubleFeed,
    FileWriteError,
    CheckDeviceOnline,
    Interlock,
    DamagedCorner,
    FocusError,
    DocTooLight,
    DocTooDark,
    NoMedia,
    /// A code outside the protocol's own set, kept as the driver gave it.
    Unknown(u16),
}

/// Result of one dispatch: the return code of the requested operation and the
/// condition code learned from the status query after it.
#[derive(Debug, Copy, Clone, PartialEq, Eq, Structural)]
pub struct Response {
    pub return_code: ReturnCode,
    pub condition_code: ConditionCode,
}

impl ReturnCode {
    /// The raw code that a return code stands for.
    pub open spec fn code(self) -> u16 {
        match self {
            ReturnCode::Success => TWRC_SUCCESS,
            ReturnCode::Failure => TWRC_FAILURE,
            ReturnCode::CheckStatus => TWRC_CHECKSTATUS,
            ReturnCode::Cancel => TWRC_CANCEL,
            ReturnCode::DSEvent => TWRC_DSEVENT,
            ReturnCode::NotDSEvent => TWRC_NOTDSEVENT,
            ReturnCode::XferDone => TWRC_XFERDONE,
            ReturnCode::EndOfList => TWRC_ENDOFLIST,
            ReturnCode::InfoNotSupported => TWRC_INFONOTSUPPORTED,
            ReturnCode::DataNotAvailable => TWRC_DATANOTAVAILABLE,
            ReturnCode::Busy => TWRC_BUSY,
            ReturnCode::ScannerLocked => TWRC_SCANNERLOCKED,
            ReturnCode::Unknown(n) => n,
        }
    }

    /// Whether `rc` is one of the protocol's own return codes.
    pub open spec fn is_known(rc: u16) -> bool {
        rc <= TWRC_SCANNERLOCKED
    }

    /// The return code that a raw code decodes to.
    pub open spec fn decode(rc: u16) -> ReturnCode {
        if rc == TWRC_SUCCESS {
            ReturnCode::Success
        } else if rc == TWRC_FAILURE {
            ReturnCode::Failure
        } else if rc == TWRC_CHECKSTATUS {
            ReturnCode::CheckStatus
        } else if rc == TWRC_CANCEL {
            ReturnCode::Cancel
        } else if rc == TWRC_DSEVENT {
            ReturnCode::DSEvent
        } else if rc == TWRC_NOTDSEVENT {
            ReturnCode::NotDSEvent
        } else if rc == TWRC_XFERDONE {
            ReturnCode::XferDone
        } else if rc == TWRC_ENDOFLIST {
            ReturnCode::EndOfList
        } else if rc == TWRC_INFONOTSUPPORTED {
            ReturnCode::InfoNotSupported
        } else if rc == TWRC_DATANOTAVAILABLE {
            ReturnCode::DataNotAvailable
        } else if rc == TWRC_BUSY {
            ReturnCode::Busy
        } else if rc == TWRC_SCANNERLOCKED {
            ReturnCode::ScannerLocked
        } else {
            ReturnCode::Unknown(rc)
        }
    }

    /// What `to_string` writes.
    pub open spec fn text(self) -> Seq<char> {
        match self {
            ReturnCode::Success => "Success"@,
            ReturnCode::Failure => "Failure"@,
            ReturnCode::CheckStatus => "CheckStatus"@,
            ReturnCode::Cancel => "Cancel"@,
            ReturnCode::DSEvent => "DSEvent"@,
            ReturnCode::NotDSEvent => "NotDSEvent"@,
            ReturnCode::XferDone => "XferDone"@,
            ReturnCode::EndOfList => "EndOfList"@,
            ReturnCode::InfoNotSupported => "InfoNotSupported"@,
            ReturnCode::DataNotAvailable => "DataNotAvailable"@,
            ReturnCode::Busy => "Busy"@,
            ReturnCode::ScannerLocked => "ScannerLocked"@,
            ReturnCode::Unknown(n) => "Unknown("@ + decimal(n as nat) + ")"@,
        }
    }

    /// Decodes a raw return code. Total: a code outside the protocol's own set
    /// comes back as `Unknown` with the code in it.
    pub fn from_rc(rc: u16) -> (r: ReturnCode)
        ensures
            r == ReturnCode::decode(rc),
            r.code() == rc,
            !ReturnCode::is_known(rc) <==> r == ReturnCode::Unknown(rc),
    {
        match rc {
            TWRC_SUCCESS => ReturnCode::Success,
            TWRC_FAILURE => ReturnCode::Failure,
            TWRC_CHECKSTATUS => ReturnCode::CheckStatus,
            TWRC_CANCEL => ReturnCode::Cancel,
            TWRC_DSEVENT => ReturnCode::DSEvent,
            TWRC_NOTDSEVENT => ReturnCode::NotDSEvent,
            TWRC_XFERDONE => ReturnCode::XferDone,
            TWRC_ENDOFLIST => ReturnCode::EndOfList,
            TWRC_INFONOTSUPPORTED => ReturnCode::InfoNotSupported,
            TWRC_DATANOTAVAILABLE => ReturnCode::DataNotAvailable,
            TWRC_BUSY => ReturnCode::Busy,
            TWRC_SCANNERLOCKED => ReturnCode::ScannerLocked,
            _ => ReturnCode::Unknown(rc),
        }
    }

    /// The name of the return code; an unknown one as `Unknown(n)` with its
    /// code in decimal.
    pub fn to_string(&self) -> (r: String)
        ensures
            r@ == self.text(),
    {
        match self {
            ReturnCode::Success => String::from_str("Success"),
            ReturnCode::Failure => String::from_str("Failure"),
            ReturnCode::CheckStatus => String::from_str("CheckStatus"),
            ReturnCode::Cancel => String::from_str("Cancel"),
            ReturnCode::DSEvent => String::from_str("DSEvent"),
            ReturnCode::NotDSEvent => String::from_str("NotDSEvent"),
            ReturnCode::XferDone => String::from_str("XferDone"),
            ReturnCode::EndOfList => String::from_str("EndOfList"),
            ReturnCode::InfoNotSupported => String::from_str("InfoNotSupported"),
            ReturnCode::DataNotAvailable => String::from_str("DataNotAvailable"),
            ReturnCode::Busy => String::from_str("Busy"),
            ReturnCode::ScannerLocked => String::from_str("ScannerLocked"),
            ReturnCode::Unknown(n) => {
                let mut s = String::from_str("Unknown(");
                push_decimal(&mut s, *n);
                s.append(")");
                s
            },
        }
    }
}

impl ConditionCode {
    /// Whether `cc` is one of the protocol's own condition codes.
    pub open spec fn is_known(cc: u16) -> bool {
        cc <= TWCC_BADCAP || TWCC_BADPROTOCOL <= cc <= TWCC_NOMEDIA
    }

    /// The condition code that a raw code decodes to.
    pub open spec fn decode(cc: u16) -> ConditionCode {
        if cc == TWCC_SUCCESS {
            ConditionCode::Success
        } else if cc == TWCC_BUMMER {
            ConditionCode::Bummer
        } else if cc == TWCC_LOWMEMORY {
            ConditionCode::LowMemory
        } else if cc == TWCC_NODS {
            ConditionCode::NoDS
        } else if cc == TWCC_MAXCONNECTIONS {
            ConditionCode::MaxConnections
        } else if cc == TWCC_OPERATIONERROR {
            ConditionCode::OperationError
        } else if cc == TWCC_BADCAP {
            ConditionCode::BadCap
        } else if cc == TWCC_BADPROTOCOL {
            ConditionCode::BadProtocol
        } else if cc == TWCC_BADVALUE {
            ConditionCode::BadValue
        } else if cc == TWCC_SEQERROR {
            ConditionCode::SeqError
        } else if cc == TWCC_BADDEST {
            ConditionCode::BadDest
        } else if cc == TWCC_CAPUNSUPPORTED {
            ConditionCode::CapUnsupported
        } else if cc == TWCC_CAPBADOPERATION {
            ConditionCode::CapBadOperation
        } else if cc == TWCC_CAPSEQERROR {
            ConditionCode::CapSeqError
        } else if cc == TWCC_DENIED {
            ConditionCode::Denied
        } else if cc == TWCC_FILEEXISTS {
            ConditionCode::FileExists
        } else if cc == TWCC_FILENOTFOUND {
            ConditionCode::FileNotFound
        } else if cc == TWCC_NOTEMPTY {
            ConditionCode::NotEmpty
        } else if cc == TWCC_PAPERJAM {
            ConditionCode::PaperJam
        } else if cc == TWCC_PAPERDOUBLEFEED {
            ConditionCode::PaperDoubleFeed
        } else if cc == TWCC_FILEWRITEERROR {
            ConditionCode::FileWriteError
        } else if cc == TWCC_CHECKDEVICEONLINE {
            ConditionCode::CheckDeviceOnline
        } else if cc == TWCC_INTERLOCK {
            ConditionCode::Interlock
        } else if cc == TWCC_DAMAGEDCORNER {
            ConditionCode::DamagedCorner
        } else if cc == TWCC_FOCUSERROR {
            ConditionCode::FocusError
        } else if cc == TWCC_DOCTOOLIGHT {
            ConditionCode::DocTooLight
        } else if cc == TWCC_DOCTOODARK {
            ConditionCode::DocTooDark
        } else if cc == TWCC_NOMEDIA {
            ConditionCode::NoMedia
        } else {
            ConditionCode::Unknown(cc)
        }
    }

    /// The raw code that a decoded condition code stands for. A
    /// `NoConditionCode` stands for none.
    pub open spec fn code(self) -> Option<u16> {
        match self {
            ConditionCode::NoConditionCode(_) => None,
            ConditionCode::Success => Some(TWCC_SUCCESS),
            ConditionCode::Bummer => Some(TWCC_BUMMER),
            ConditionCode::LowMemory => Some(TWCC_LOWMEMORY),
            ConditionCode::NoDS => Some(TWCC_NODS),
            ConditionCode::MaxConnections => Some(TWCC_MAXCONNECTIONS),
            ConditionCode::OperationError => Some(TWCC_OPERATIONERROR),
            ConditionCode::BadCap => Some(TWCC_BADCAP),
            ConditionCode::BadProtocol => Some(TWCC_BADPROTOCOL),
            ConditionCode::BadValue => Some(TWCC_BADVALUE),
            ConditionCode::SeqError => Some(TWCC_SEQERROR),
            ConditionCode::BadDest => Some(TWCC_BADDEST),
            ConditionCode::CapUnsupported => Some(TWCC_CAPUNSUPPORTED),
            ConditionCode::CapBadOperation => Some(TWCC_CAPBADOPERATION),
            ConditionCode::CapSeqError => Some(TWCC_CAPSEQERROR),
            ConditionCode::Denied => Some(TWCC_DENIED),
            ConditionCode::FileExists => Some(TWCC_FILEEXISTS),
            ConditionCode::FileNotFound => Some(TWCC_FILENOTFOUND),
            ConditionCode::NotEmpty => Some(TWCC_NOTEMPTY),
            ConditionCode::PaperJam => Some(TWCC_PAPERJAM),
            ConditionCode::PaperDoubleFeed => Some(TWCC_PAPERDOUBLEFEED),
            ConditionCode::FileWriteError => Some(TWCC_FILEWRITEERROR),
            ConditionCode::CheckDeviceOnline => Some(TWCC_CHECKDEVICEONLINE),
            ConditionCode::Interlock => Some(TWCC_INTERLOCK),
            ConditionCode::DamagedCorner => Some(TWCC_DAMAGEDCORNER),
            ConditionCode::FocusError => Some(TWCC_FOCUSERROR),
            ConditionCode::DocTooLight => Some(TWCC_DOCTOOLIGHT),
            ConditionCode::DocTooDark => Some(TWCC_DOCTOODARK),
            ConditionCode::NoMedia => Some(TWCC_NOMEDIA),
            ConditionCode::Unknown(n) => Some(n),
        }
    }

    /// What `to_string` writes.
    pub open spec fn text(self) -> Seq<char> {
        match self {
            ConditionCode::NoConditionCode(rc) => "No CC (RC="@ + rc.text() + ")"@,
            ConditionCode::Success => "Success"@,
            ConditionCode::Bummer => "Bummer"@,
            ConditionCode::LowMemory => "LowMemory"@,
            ConditionCode::NoDS => "NoDS"@,
            ConditionCode::MaxConnections => "MaxConnections"@,
            ConditionCode::OperationError => "OperationError"@,
            ConditionCode::BadCap => "BadCap"@,
            ConditionCode::BadProtocol => "BadProtocol"@,
            ConditionCode::BadValue => "BadValue"@,
            ConditionCode::SeqError => "SeqError"@,
            ConditionCode::BadDest => "BadDest"@,
            ConditionCode::CapUnsupported => "CapUnsupported"@,
            ConditionCode::CapBadOperation => "CapBadOperation"@,
            ConditionCode::CapSeqError => "CapSeqError"@,
            ConditionCode::Denied => "Denied"@,
            ConditionCode::FileExists => "FileExists"@,
            ConditionCode::FileNotFound => "FileNotFound"@,
            ConditionCode::NotEmpty => "NotEmpty"@,
            ConditionCode::PaperJam => "PaperJam"@,
            ConditionCode::PaperDoubleFeed => "PaperDoubleFeed"@,
            ConditionCode::FileWriteError => "FileWriteError"@,
            ConditionCode::CheckDeviceOnline => "CheckDeviceOnline"@,
            ConditionCode::Interlock => "Interlock"@,
            ConditionCode::DamagedCorner => "DamagedCorner"@,
            ConditionCode::FocusError => "FocusError"@,
            ConditionCode::DocTooLight => "DocTooLight"@,
            ConditionCode::DocTooDark => "DocTooDark"@,
            ConditionCode::NoMedia => "NoMedia"@,
            ConditionCode::Unknown(n) => "Unknown("@ + decimal(n as nat) + ")"@,
        }
    }

    /// Decodes a raw condition code. Total: a code outside the protocol's own
    /// set comes back as `Unknown` with the code in it.
    pub fn from_cc(cc: u16) -> (r: ConditionCode)
        ensures
            r == ConditionCode::decode(cc),
            r.code() == Some(cc),
            !ConditionCode::is_known(cc) <==> r == ConditionCode::Unknown(cc),
    {
        match cc {
            TWCC_SUCCESS => ConditionCode::Success,
            TWCC_BUMMER => ConditionCode::Bummer,
            TWCC_LOWMEMORY => ConditionCode::LowMemory,
            TWCC_NODS => ConditionCode::NoDS,
            TWCC_MAXCONNECTIONS => ConditionCode::MaxConnections,
            TWCC_OPERATIONERROR => ConditionCode::OperationError,
            TWCC_BADCAP => ConditionCode::BadCap,
            TWCC_BADPROTOCOL => ConditionCode::BadProtocol,
            TWCC_BADVALUE => ConditionCode::BadValue,
            TWCC_SEQERROR => ConditionCode::SeqError,
            TWCC_BADDEST => ConditionCode::BadDest,
            TWCC_CAPUNSUPPORTED => ConditionCode::CapUnsupported,
            TWCC_CAPBADOPERATION => ConditionCode::CapBadOperation,
            TWCC_CAPSEQERROR => ConditionCode::CapSeqError,
            TWCC_DENIED => ConditionCode::Denied,
            TWCC_FILEEXISTS => ConditionCode::FileExists,
            TWCC_FILENOTFOUND => ConditionCode::FileNotFound,
            TWCC_NOTEMPTY => ConditionCode::NotEmpty,
            TWCC_PAPERJAM => ConditionCode::PaperJam,
            TWCC_PAPERDOUBLEFEED => ConditionCode::PaperDoubleFeed,
            TWCC_FILEWRITEERROR => ConditionCode::FileWriteError,
            TWCC_CHECKDEVICEONLINE => ConditionCode::CheckDeviceOnline,
            TWCC_INTERLOCK => ConditionCode::Interlock,
            TWCC_DAMAGEDCORNER => ConditionCode::DamagedCorner,
            TWCC_FOCUSERROR => ConditionCode::FocusError,
            TWCC_DOCTOOLIGHT => ConditionCode::DocTooLight,
            TWCC_DOCTOODARK => ConditionCode::DocTooDark,
            TWCC_NOMEDIA => ConditionCode::NoMedia,
            _ => ConditionCode::Unknown(cc),
        }
    }

    /// The name of the condition code; an unknown one as `Unknown(n)` with its
    /// code in decimal; a missing one as `No CC (RC=..)` with the return code
    /// of the status query.
    pub fn to_string(&self) -> (r: String)
        ensures
            r@ == self.text(),
    {
        match self {
            ConditionCode::NoConditionCode(rc) => {
                let mut s = String::from_str("No CC (RC=");
                let inner = rc.to_string();
                s.append(inner.as_str());
                s.append(")");
                s
            },
            ConditionCode::Success => String::from_str("Success"),
            ConditionCode::Bummer => String::from_str("Bummer"),
            ConditionCode::LowMemory => String::from_str("LowMemory"),
            ConditionCode::NoDS => String::from_str("NoDS"),
            ConditionCode::MaxConnections => String::from_str("MaxConnections"),
            ConditionCode::OperationError => String::from_str("OperationError"),
            ConditionCode::BadCap => String::from_str("BadCap"),
            ConditionCode::BadProtocol => String::from_str("BadProtocol"),
            ConditionCode::BadValue => String::from_str("BadValue"),
            ConditionCode::SeqError => String::from_str("SeqError"),
            ConditionCode::BadDest => String::from_str("BadDest"),
            ConditionCode::CapUnsupported => String::from_str("CapUnsupported"),
            ConditionCode::CapBadOperation => String::from_str("CapBadOperation"),
            ConditionCode::CapSeqError => String::from_str("CapSeqError"),
            ConditionCode::Denied => String::from_str("Denied"),
            ConditionCode::FileExists => String::from_str("FileExists"),
            ConditionCode::FileNotFound => String::from_str("FileNotFound"),
            ConditionCode::NotEmpty => String::from_str("NotEmpty"),
            ConditionCode::PaperJam => String::from_str("PaperJam"),
            ConditionCode::PaperDoubleFeed => String::from_str("PaperDoubleFeed"),
            ConditionCode::FileWriteError => String::from_str("FileWriteError"),
            ConditionCode::CheckDeviceOnline => String::from_str("CheckDeviceOnline"),
            ConditionCode::Interlock => String::from_str("Interlock"),
            ConditionCode::DamagedCorner => String::from_str("DamagedCorner"),
            ConditionCode::FocusError => String::from_str("FocusError"),
            ConditionCode::DocTooLight => String::from_str("DocTooLight"),
            ConditionCode::DocTooDark => String::from_str("DocTooDark"),
            ConditionCode::NoMedia => String::from_str("NoMedia"),
            ConditionCode::Unknown(n) => {
                let mut s = String::from_str("Unknown(");
                push_decimal(&mut s, *n);
                s.append(")");
                s
            },
        }
    }
}

impl Response {
    /// Whether the requested operation succeeded. The condition code has no
    /// part in it.
    pub open spec fn spec_is_success(&self) -> bool {
        self.return_code == ReturnCode::Success
    }

    /// What `to_string` writes.
    pub open spec fn text(self) -> Seq<char> {
        "RC="@ + self.return_code.text() + ", CC="@ + self.condition_code.text()
    }

    /// Whether the requested operation succeeded.
    #[verifier::when_used_as_spec(spec_is_success)]
    pub fn is_success(&self) -> (r: bool)
        ensures
            r == self.spec_is_success(),
    {
        matches!(self.return_code, ReturnCode::Success)
    }

    /// Both codes by name, as `RC=.., CC=..`.
    pub fn to_string(&self) -> (r: String)
        ensures
            r@ == self.text(),
    {
        let mut s = String::from_str("RC=");
        let rc = self.return_code.to_string();
        s.append(rc.as_str());
        s.append(", CC=");
        let cc = self.condition_code.to_string();
        s.append(cc.as_str());
        s
    }
}

/// Decoding loses nothing: a return code decodes to the value that stands for
/// it, and two raw codes that decode alike are the same code.
pub proof fn lemma_return_code_round_trip(a: u16, b: u16)
    ensures
        ReturnCode::decode(a).code() == a,
        ReturnCode::decode(a) == ReturnCode::decode(b) ==> a == b,
        ReturnCode::decode(a) is Unknown <==> !ReturnCode::is_known(a),
        !ReturnCode::is_known(a) ==> ReturnCode::decode(a) == ReturnCode::Unknown(a),
{
}

/// Decoding loses nothing: a condition code decodes to the value that stands
/// for it, two raw codes that decode alike are the same code, and decoding
/// never yields `NoConditionCode`.
pub proof fn lemma_condition_code_round_trip(a: u16, b: u16)
    ensures
        ConditionCode::decode(a).code() == Some(a),
        ConditionCode::decode(a) == ConditionCode::decode(b) ==> a == b,
        ConditionCode::decode(a) is Unknown <==> !ConditionCode::is_known(a),
        !ConditionCode::is_known(a) ==> ConditionCode::decode(a) == ConditionCode::Unknown(a),
        !(ConditionCode::decode(a) is NoConditionCode),
{
}

} // verus!
