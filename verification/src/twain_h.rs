//! Constants of the TWAIN header that the engine reads or emits, and plain-value
//! models of the header's structures.
use vstd::prelude::*;

verus! {

/// Data group of control operations.
pub const DG_CONTROL: u32 = 0x0001;

/// Data group of image operations.
pub const DG_IMAGE: u32 = 0x0002;

/// Supported-groups flag: the manager speaks version 2.
pub const DF_DSM2: u32 = 0x1000_0000;

/// Supported-groups flag: the application speaks version 2.
pub const DF_APP2: u32 = 0x2000_0000;

/// Supported-groups flag: the source speaks version 2.
pub const DF_DS2: u32 = 0x4000_0000;

pub const DAT_IDENTITY: u16 = 0x0003;

pub const DAT_PARENT: u16 = 0x0004;

pub const DAT_PENDINGXFERS: u16 = 0x0005;

pub const DAT_STATUS: u16 = 0x0008;

pub const DAT_USERINTERFACE: u16 = 0x0009;

pub const DAT_CALLBACK2: u16 = 0x0012;

pub const DAT_IMAGENATIVEXFER: u16 = 0x0104;

pub const DAT_ENTRYPOINT: u16 = 0x0403;

pub const MSG_GET: u16 = 0x0001;

pub const MSG_GETFIRST: u16 = 0x0004;

pub const MSG_GETNEXT: u16 = 0x0005;

pub const MSG_RESET: u16 = 0x0007;

pub const MSG_XFERREADY: u16 = 0x0101;

pub const MSG_OPENDSM: u16 = 0x0301;

pub const MSG_CLOSEDSM: u16 = 0x0302;

pub const MSG_OPENDS: u16 = 0x0401;

pub const MSG_CLOSEDS: u16 = 0x0402;

pub const MSG_DISABLEDS: u16 = 0x0501;

pub const MSG_ENABLEDS: u16 = 0x0502;

pub const MSG_ENDXFER: u16 = 0x0701;

pub const MSG_REGISTER_CALLBACK: u16 = 0x0902;

pub const TWRC_SUCCESS: u16 = 0;

pub const TWRC_FAILURE: u16 = 1;

pub const TWRC_CHECKSTATUS: u16 = 2;

pub const TWRC_CANCEL: u16 = 3;

pub const TWRC_DSEVENT: u16 = 4;

pub const TWRC_NOTDSEVENT: u16 = 5;

pub const TWRC_XFERDONE: u16 = 6;

pub const TWRC_ENDOFLIST: u16 = 7;

pub const TWRC_INFONOTSUPPORTED: u16 = 8;

pub const TWRC_DATANOTAVAILABLE: u16 = 9;

pub const TWRC_BUSY: u16 = 10;

pub const TWRC_SCANNERLOCKED: u16 = 11;

pub const TWCC_SUCCESS: u16 = 0;

pub const TWCC_BUMMER: u16 = 1;

pub const TWCC_LOWMEMORY: u16 = 2;

pub const TWCC_NODS: u16 = 3;

pub const TWCC_MAXCONNECTIONS: u16 = 4;

pub const TWCC_OPERATIONERROR: u16 = 5;

pub const TWCC_BADCAP: u16 = 6;

pub const TWCC_BADPROTOCOL: u16 = 9;

pub const TWCC_BADVALUE: u16 = 10;

pub const TWCC_SEQERROR: u16 = 11;

pub const TWCC_BADDEST: u16 = 12;

pub const TWCC_CAPUNSUPPORTED: u16 = 13;

pub const TWCC_CAPBADOPERATION: u16 = 14;

pub const TWCC_CAPSEQERROR: u16 = 15;

pub const TWCC_DENIED: u16 = 16;

pub const TWCC_FILEEXISTS: u16 = 17;

pub const TWCC_FILENOTFOUND: u16 = 18;

pub const TWCC_NOTEMPTY: u16 = 19;

pub const TWCC_PAPERJAM: u16 = 20;

pub const TWCC_PAPERDOUBLEFEED: u16 = 21;

pub const TWCC_FILEWRITEERROR: u16 = 22;

pub const TWCC_CHECKDEVICEONLINE: u16 = 23;

pub const TWCC_INTERLOCK: u16 = 24;

pub const TWCC_DAMAGEDCORNER: u16 = 25;

pub const TWCC_FOCUSERROR: u16 = 26;

pub const TWCC_DOCTOOLIGHT: u16 = 27;

pub const TWCC_DOCTOODARK: u16 = 28;

pub const TWCC_NOMEDIA: u16 = 29;

/// Number of bytes in a short text field.
pub const STR32_LEN: usize = 34;

/// A short text field: 34 bytes that hold a text and, after it, NUL. An encoded
/// field holds 33 bytes of text at most, so that its last byte is NUL.
pub type Str32 = [u8; 34];

/// Version of a product, as an identity carries it.
#[derive(Debug, Copy, Clone, PartialEq, Eq)]
pub struct Version {
    pub major_num: u16,
    pub minor_num: u16,
    pub language: u16,
    pub country: u16,
    pub info: Str32,
}

/// Identity of the application or of a source. The driver may change any field
/// of an identity handed to it, so a session is given each identity as the
/// driver left it.
#[derive(Debug, Copy, Clone, PartialEq, Eq)]
pub struct Identity {
    pub id: u32,
    pub version: Version,
    pub protocol_major: u16,
    pub protocol_minor: u16,
    pub supported_groups: u32,
    pub manufacturer: Str32,
    pub product_family: Str32,
    pub product_name: Str32,
}

/// How a source is to show its user interface; `parent` is the address of the
/// window handle that owns it.
#[derive(Debug, Copy, Clone, PartialEq, Eq)]
pub struct UserInterface {
    pub show_ui: u16,
    pub modal_ui: u16,
    pub parent: usize,
}

} // verus!
