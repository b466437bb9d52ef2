//! Session protocol engine for TWAIN: result decoding, the dispatch protocol,
//! the manager and source sessions, and the bridge to native memory handles.
//!
//! The engine makes no foreign call itself. Every operation of a session is
//! split at the call through the entry point: one function decides whether the
//! operation is allowed and what is to be dispatched, the host makes the call,
//! and a second function takes the outcome and moves the session on. A
//! dispatch is two calls, the requested one and the status query after it;
//! [`Dispatch`] leads the host through them and decodes what they return.
//!
//! ```text
//! let op = source.enable()?;                  // allowed? state set, operation named
//! let res = host.dispatch(op, &mut ui);       // the two calls of a dispatch
//! source.finish_enable(ui, res)?;             // user interface kept, or state rolled back
//! ```
//!
//! Messages that the driver sends through the registered callback are handed to
//! [`OpenedDS::callback`] whenever they arrive, also between the two halves of
//! an operation.
pub mod data;
pub mod decimal;
pub mod dispatch;
pub mod ds;
pub mod dsm;
pub mod entrypoint;
pub mod response;
pub mod twain_h;
pub mod twain_h_ext;

pub use data::PointerFromHandle;
pub use dispatch::{Call, Destination, Dispatch, Operation, StatusQuery, Triplet};
pub use ds::{id_to_label, DSError, DSState, OpenedDS, TeardownStep};
pub use dsm::{DataSources, Listing, OpenedDSM};
pub use entrypoint::{EntryPoints, TwEntryPoint};
pub use response::{ConditionCode, Response, ReturnCode};
