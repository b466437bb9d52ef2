//! The source session: one open source and its state machine.
use crate::dispatch::Operation;
use crate::response::Response;
use crate::response::ReturnCode;
use crate::twain_h::{Identity, UserInterface, MSG_XFERREADY};
use crate::twain_h_ext::{str32_text, tw_str32_to_string};
use vstd::prelude::*;
use vstd::string::StringExecFns;

verus! {

/// Where a source stands in the protocol. A source is opened in `SourceOpen`,
/// enabled into `SourceEnabled`, moved to `TransferReady` by the driver when an
/// image waits, and is `Transferring` from the transfer of an image to the end
/// of that transfer.
#[derive(Debug, Copy, Clone, PartialEq, Eq, Structural)]
pub enum DSState {
    SourceOpen,
    SourceEnabled,
    TransferReady,
    Transferring,
}

/// Why an operation on a source failed.
#[derive(Debug, Copy, Clone, PartialEq, Eq, Structural)]
pub enum DSError {
    /// The operation was asked for in a state that does not allow it; carries
    /// that state. Nothing was dispatched.
    InvalidState(DSState),
    /// The dispatch of the operation did not succeed; carries its response.
    BadResponse(Response),
}

/// The steps by which a session is taken down, in their order.
#[derive(Debug, Copy, Clone, PartialEq, Eq, Structural)]
pub enum TeardownStep {
    ResetPendingTransfers,
    Disable,
    Close,
}

/// One open source. `ui` is the user interface that the source was enabled
/// with, and is there only while it is enabled.
pub struct OpenedDS {
    pub name: String,
    pub ds_identity: Identity,
    pub ui: Option<UserInterface>,
    pub state: DSState,
}

impl TeardownStep {
    /// The step that follows this one, if any.
    pub open spec fn spec_next(&self) -> Option<TeardownStep> {
        match *self {
            TeardownStep::ResetPendingTransfers => Some(TeardownStep::Disable),
            TeardownStep::Disable => Some(TeardownStep::Close),
            TeardownStep::Close => None,
        }
    }

    /// The step that follows this one, if any.
    #[verifier::when_used_as_spec(spec_next)]
    pub fn next(&self) -> (r: Option<TeardownStep>)
        ensures
            r == self.spec_next(),
    {
        match *self {
            TeardownStep::ResetPendingTransfers => Some(TeardownStep::Disable),
            TeardownStep::Disable => Some(TeardownStep::Close),
            TeardownStep::Close => None,
        }
    }
}

impl DSState {
    /// What `to_string` writes.
    pub open spec fn text(self) -> Seq<char> {
        match self {
            DSState::SourceOpen => "SourceOpen"@,
            DSState::SourceEnabled => "SourceEnabled"@,
            DSState::TransferReady => "TransferReady"@,
            DSState::Transferring => "Transferring"@,
        }
    }

    /// The name of the state.
    pub fn to_string(&self) -> (r: String)
        ensures
            r@ == self.text(),
    {
        match self {
            DSState::SourceOpen => String::from_str("SourceOpen"),
            DSState::SourceEnabled => String::from_str("SourceEnabled"),
            DSState::TransferReady => String::from_str("TransferReady"),
            DSState::Transferring => String::from_str("Transferring"),
        }
    }
}

impl DSError {
    /// What `to_string` writes.
    pub open spec fn text(self) -> Seq<char> {
        match self {
            DSError::InvalidState(state) => "InvalidState("@ + state.text() + ")"@,
            DSError::BadResponse(res) => "BadResponse("@ + res.text() + ")"@,
        }
    }

    /// The kind of the error by name, with the state or the response in
    /// brackets.
    pub fn to_string(&self) -> (r: String)
        ensures
            r@ == self.text(),
    {
        match self {
            DSError::InvalidState(state) => {
                let mut s = String::from_str("InvalidState(");
                let inner = state.to_string();
                s.append(inner.as_str());
                s.append(")");
                s
            },
            DSError::BadResponse(res) => {
                let mut s = String::from_str("BadResponse(");
                let inner = res.to_string();
                s.append(inner.as_str());
                s.append(")");
                s
            },
        }
    }
}

/// The label of an identity: its product name.
pub fn id_to_label(id: &Identity) -> (label: String)
    ensures
        label@ == str32_text(id.product_name@),
{
    tw_str32_to_string(&id.product_name)
}

impl OpenedDS {
    /// The session with its state set to `state`.
    pub open spec fn with_state(self, state: DSState) -> OpenedDS {
        OpenedDS { state, ..self }
    }

    /// The session with its user interface set to `ui`.
    pub open spec fn with_ui(self, ui: Option<UserInterface>) -> OpenedDS {
        OpenedDS { ui, ..self }
    }

    /// `enable` as a function: the session after it, and what it returns.
    pub open spec fn spec_enable(self) -> (OpenedDS, Result<Operation, DSError>) {
        if self.state == DSState::SourceOpen {
            (self.with_state(DSState::SourceEnabled), Ok(Operation::EnableSource))
        } else {
            (self, Err(DSError::InvalidState(self.state)))
        }
    }

    /// `finish_enable` as a function: the session after it, and what it returns.
    pub open spec fn spec_finish_enable(self, ui: UserInterface, res: Response) -> (
        OpenedDS,
        Result<(), DSError>,
    ) {
        if res.is_success() {
            (self.with_ui(Some(ui)), Ok(()))
        } else {
            (self.with_state(DSState::SourceOpen), Err(DSError::BadResponse(res)))
        }
    }

    /// What `disable` returns.
    pub open spec fn spec_disable(self) -> Result<(Operation, UserInterface), DSError> {
        if self.state == DSState::SourceEnabled && self.ui is Some {
            Ok((Operation::DisableSource, self.ui->0))
        } else {
            Err(DSError::InvalidState(self.state))
        }
    }

    /// `finish_disable` as a function: the session after it, and what it returns.
    pub open spec fn spec_finish_disable(self, res: Response) -> (OpenedDS, Result<(), DSError>) {
        if res.is_success() {
            (self.with_ui(None).with_state(DSState::SourceOpen), Ok(()))
        } else {
            (self, Err(DSError::BadResponse(res)))
        }
    }

    /// What `reset_pending_transfers` returns.
    pub open spec fn spec_reset_pending_transfers(self) -> Result<Operation, DSError> {
        if self.state == DSState::TransferReady {
            Ok(Operation::ResetPendingTransfers)
        } else {
            Err(DSError::InvalidState(self.state))
        }
    }

    /// `finish_reset_pending_transfers` as a function: the session after it, and what
    /// it returns.
    pub open spec fn spec_finish_reset_pending_transfers(self, res: Response) -> (
        OpenedDS,
        Result<(), DSError>,
    ) {
        if res.is_success() {
            (self.with_state(DSState::SourceEnabled), Ok(()))
        } else {
            (self, Err(DSError::BadResponse(res)))
        }
    }

    /// What `acquire_native_image` returns.
    pub open spec fn spec_acquire_native_image(self) -> Result<Operation, DSError> {
        if self.state == DSState::TransferReady {
            Ok(Operation::GetNativeImage)
        } else {
            Err(DSError::InvalidState(self.state))
        }
    }

    /// The session after `finish_acquire_native_image`.
    pub open spec fn spec_finish_acquire_native_image(self, res: Response, count: u16) -> OpenedDS {
        if !res.is_success() {
            self
        } else if count == 0 {
            self.with_state(DSState::SourceEnabled)
        } else {
            self.with_state(DSState::TransferReady)
        }
    }

    /// Whether `callback` acts on the message `msg`: it is the message that an
    /// image waits, and the source is enabled and no transfer is under way.
    pub open spec fn spec_accepts(self, msg: u16) -> bool {
        msg == MSG_XFERREADY && self.state == DSState::SourceEnabled
    }

    /// The session after `callback`.
    pub open spec fn spec_callback(self, msg: u16) -> OpenedDS {
        if self.spec_accepts(msg) {
            self.with_state(DSState::TransferReady)
        } else {
            self
        }
    }

    /// What `teardown` returns.
    pub open spec fn spec_teardown(self, step: TeardownStep) -> Option<Operation> {
        match step {
            TeardownStep::ResetPendingTransfers => if self.state == DSState::TransferReady {
                Some(Operation::ResetPendingTransfers)
            } else {
                None
            },
            TeardownStep::Disable => if self.state == DSState::SourceEnabled && self.ui is Some {
                Some(Operation::DisableSource)
            } else {
                None
            },
            TeardownStep::Close => Some(Operation::CloseSource),
        }
    }

    /// The session after `finish_teardown`.
    pub open spec fn spec_finish_teardown(self, step: TeardownStep, res: Response) -> OpenedDS {
        match step {
            TeardownStep::ResetPendingTransfers => self.spec_finish_reset_pending_transfers(res).0,
            TeardownStep::Disable => self.spec_finish_disable(res).0,
            TeardownStep::Close => self,
        }
    }

    /// The session after a whole teardown that began in this state: each step
    /// that asks for a dispatch is followed by its outcome, `reset` for the
    /// first step and `disable` for the second.
    pub open spec fn spec_torn_down(self, reset: Response, disable: Response) -> OpenedDS {
        let first = if self.spec_teardown(TeardownStep::ResetPendingTransfers) is Some {
            self.spec_finish_teardown(TeardownStep::ResetPendingTransfers, reset)
        } else {
            self
        };
        if first.spec_teardown(TeardownStep::Disable) is Some {
            first.spec_finish_teardown(TeardownStep::Disable, disable)
        } else {
            first
        }
    }

    /// Makes the session of a source from the outcome of the dispatch of
    /// `OpenSource`. `requested` is the identity that was asked for, `res` the
    /// response, `opened` the identity as the driver left it. Where the
    /// dispatch did not succeed there is no session, and its response comes
    /// back. Otherwise the session is in `SourceOpen`, named after the product
    /// that was asked for, and not enabled. What the host dispatches next is
    /// told by `register_callback`.
    pub fn new(requested: &Identity, res: Response, opened: Identity) -> (r: Result<
        OpenedDS,
        Response,
    >)
        ensures
            !res.is_success() ==> r == Err::<OpenedDS, Response>(res),
            res.is_success() ==> r is Ok,
            r is Ok ==> r->Ok_0.name@ == str32_text(requested.product_name@),
            r is Ok ==> r->Ok_0.ds_identity == opened,
            r is Ok ==> r->Ok_0.ui is None,
            r is Ok ==> r->Ok_0.state == DSState::SourceOpen,
    {
        if !res.is_success() {
            return Err(res);
        }
        let name = id_to_label(requested);
        Ok(OpenedDS { name, ds_identity: opened, ui: None, state: DSState::SourceOpen })
    }

    /// What to dispatch once the source is open, with the address of the host's
    /// callback and of its session as the data: the registration of the
    /// callback through which the driver sends its messages. The outcome
    /// changes nothing: a source whose callback could not be registered is
    /// open all the same, and can be polled.
    pub fn register_callback(&self) -> (op: Operation)
        ensures
            op == Operation::RegisterCallback,
    {
        Operation::RegisterCallback
    }

    /// Begins enabling the source. Allowed in `SourceOpen` only: in any other
    /// state it fails with `InvalidState`, changes nothing and asks for no
    /// dispatch. Otherwise the session is in `SourceEnabled` from now on, before
    /// the call is made, so that a callback that arrives during the call finds
    /// the source enabled; the host dispatches the operation returned, with the
    /// user interface as its data, and hands the outcome to `finish_enable`.
    pub fn enable(&mut self) -> (r: Result<Operation, DSError>)
        ensures
            *final(self) == old(self).spec_enable().0,
            r == old(self).spec_enable().1,
            old(self).state != DSState::SourceOpen ==> *final(self) == *old(self) && r == Err::<
                Operation,
                DSError,
            >(DSError::InvalidState(old(self).state)),
    {
        if !matches!(self.state, DSState::SourceOpen) {
            return Err(DSError::InvalidState(self.state));
        }
        self.state = DSState::SourceEnabled;
        Ok(Operation::EnableSource)
    }

    /// Ends enabling the source with the response of the dispatch and the user
    /// interface as the driver left it. On success the user interface is kept
    /// and the state stays as it is now. On failure the state goes back to
    /// `SourceOpen` and the response comes back in `BadResponse`.
    pub fn finish_enable(&mut self, ui: UserInterface, res: Response) -> (r: Result<(), DSError>)
        ensures
            *final(self) == old(self).spec_finish_enable(ui, res).0,
            r == old(self).spec_finish_enable(ui, res).1,
    {
        if !res.is_success() {
            self.state = DSState::SourceOpen;
            return Err(DSError::BadResponse(res));
        }
        self.ui = Some(ui);
        Ok(())
    }

    /// Begins disabling the source. Allowed in `SourceEnabled` only, and only
    /// with the user interface that the source was enabled with: otherwise it
    /// fails with `InvalidState` and asks for no dispatch. The host dispatches
    /// the operation returned, with the user interface returned as its data,
    /// and hands the outcome to `finish_disable`.
    pub fn disable(&self) -> (r: Result<(Operation, UserInterface), DSError>)
        ensures
            r == self.spec_disable(),
    {
        if !matches!(self.state, DSState::SourceEnabled) {
            return Err(DSError::InvalidState(self.state));
        }
        match self.ui {
            Some(ui) => Ok((Operation::DisableSource, ui)),
            None => Err(DSError::InvalidState(self.state)),
        }
    }

    /// Ends disabling the source with the response of the dispatch. On success
    /// the user interface is dropped and the state is `SourceOpen`. On failure
    /// nothing changes and the response comes back in `BadResponse`.
    pub fn finish_disable(&mut self, res: Response) -> (r: Result<(), DSError>)
        ensures
            *final(self) == old(self).spec_finish_disable(res).0,
            r == old(self).spec_finish_disable(res).1,
    {
        if !res.is_success() {
            return Err(DSError::BadResponse(res));
        }
        self.ui = None;
        self.state = DSState::SourceOpen;
        Ok(())
    }

    /// Begins dropping the transfers that wait. Allowed in `TransferReady`
    /// only: in any other state it fails with `InvalidState` and asks for no
    /// dispatch. The host dispatches the operation returned and hands the
    /// outcome to `finish_reset_pending_transfers`.
    pub fn reset_pending_transfers(&self) -> (r: Result<Operation, DSError>)
        ensures
            r == self.spec_reset_pending_transfers(),
    {
        if !matches!(self.state, DSState::TransferReady) {
            return Err(DSError::InvalidState(self.state));
        }
        Ok(Operation::ResetPendingTransfers)
    }

    /// Ends dropping the transfers that wait with the response of the dispatch.
    /// On success the state is `SourceEnabled`. On failure nothing changes and
    /// the response comes back in `BadResponse`.
    pub fn finish_reset_pending_transfers(&mut self, res: Response) -> (r: Result<(), DSError>)
        ensures
            *final(self) == old(self).spec_finish_reset_pending_transfers(res).0,
            r == old(self).spec_finish_reset_pending_transfers(res).1,
    {
        if !res.is_success() {
            return Err(DSError::BadResponse(res));
        }
        self.state = DSState::SourceEnabled;
        Ok(())
    }

    /// Begins the transfer of the image that waits. Allowed in `TransferReady`
    /// only: in any other state it fails with `InvalidState` and asks for no
    /// dispatch. The host dispatches the operation returned, with room for a
    /// handle as its data, and hands the outcome to `deliver_native_image`.
    pub fn acquire_native_image(&self) -> (r: Result<Operation, DSError>)
        ensures
            r == self.spec_acquire_native_image(),
    {
        if !matches!(self.state, DSState::TransferReady) {
            return Err(DSError::InvalidState(self.state));
        }
        Ok(Operation::GetNativeImage)
    }

    /// Takes the outcome of the transfer: its response and the handle that the
    /// driver wrote.
    ///
    /// - `XferDone`: there is an image. The state is `Transferring`, then the
    ///   consumer is called on the handle, once, and what it gives comes back.
    /// - `Cancel`: the operator gave up. There is no image, the consumer is not
    ///   called, and the state is `Transferring` all the same, for the transfer
    ///   is to be ended either way.
    /// - anything else: the response comes back in `BadResponse` and nothing
    ///   changes.
    ///
    /// After the first two the host dispatches the operation returned,
    /// `EndTransfer`, and hands the outcome to `finish_acquire_native_image`.
    pub fn deliver_native_image<T, C: FnOnce(usize) -> T>(
        &mut self,
        res: Response,
        handle: usize,
        consumer: C,
    ) -> (r: Result<(Option<T>, Operation), DSError>)
        requires
            res.return_code == ReturnCode::XferDone ==> consumer.requires((handle,)),
        ensures
            res.return_code == ReturnCode::XferDone ==> {
                &&& *final(self) == old(self).with_state(DSState::Transferring)
                &&& r is Ok
                &&& r->Ok_0.0 is Some
                &&& consumer.ensures((handle,), r->Ok_0.0->0)
                &&& r->Ok_0.1 == Operation::EndTransfer
            },
            res.return_code == ReturnCode::Cancel ==> {
                &&& *final(self) == old(self).with_state(DSState::Transferring)
                &&& r is Ok
                &&& r->Ok_0.0 is None
                &&& r->Ok_0.1 == Operation::EndTransfer
            },
            res.return_code != ReturnCode::XferDone && res.return_code != ReturnCode::Cancel ==> {
                &&& *final(self) == *old(self)
                &&& r is Err
                &&& r->Err_0 == DSError::BadResponse(res)
            },
    {
        match res.return_code {
            ReturnCode::XferDone => {
                self.state = DSState::Transferring;
                let image = consumer(handle);
                Ok((Some(image), Operation::EndTransfer))
            },
            ReturnCode::Cancel => {
                self.state = DSState::Transferring;
                Ok((None, Operation::EndTransfer))
            },
            _ => Err(DSError::BadResponse(res)),
        }
    }

    /// Takes the outcome of ending a transfer: its response and the number of
    /// images that still wait. On success the state is `SourceEnabled` where
    /// none waits and `TransferReady` where some do. On failure nothing
    /// changes: the image has been delivered, so this is no error of the
    /// acquisition.
    pub fn finish_acquire_native_image(&mut self, res: Response, count: u16)
        ensures
            *final(self) == old(self).spec_finish_acquire_native_image(res, count),
            res.is_success() && count == 0 ==> final(self).state == DSState::SourceEnabled,
            res.is_success() && count > 0 ==> final(self).state == DSState::TransferReady,
            !res.is_success() ==> final(self).state == old(self).state,
    {
        if res.is_success() {
            if count == 0 {
                self.state = DSState::SourceEnabled;
            } else {
                self.state = DSState::TransferReady;
            }
        }
    }

    /// Takes a message that the driver sent through the registered callback.
    /// Only the message that an image waits is acted on, and only in
    /// `SourceEnabled`: the state is then `TransferReady`. Any other message,
    /// and this one in any other state, changes nothing. Tells whether the
    /// message was acted on.
    pub fn callback(&mut self, msg: u16) -> (acted: bool)
        ensures
            acted == old(self).spec_accepts(msg),
            *final(self) == old(self).spec_callback(msg),
    {
        if msg == MSG_XFERREADY && matches!(self.state, DSState::SourceEnabled) {
            self.state = DSState::TransferReady;
            true
        } else {
            false
        }
    }

    /// What to dispatch at one step of taking the session down, if anything.
    /// The steps are taken in their order, each once, and the outcome of the
    /// first two goes to `finish_reset_pending_transfers` and to `finish_disable`; a failure
    /// stops nothing. Waiting transfers are reset in `TransferReady` only; the
    /// source is disabled in `SourceEnabled` only, as it stands after the first
    /// step; the source is closed in any state.
    pub fn teardown(&self, step: TeardownStep) -> (r: Option<Operation>)
        ensures
            r == self.spec_teardown(step),
    {
        match step {
            TeardownStep::ResetPendingTransfers => match self.reset_pending_transfers() {
                Ok(op) => Some(op),
                Err(_) => None,
            },
            TeardownStep::Disable => match self.disable() {
                Ok(pair) => Some(pair.0),
                Err(_) => None,
            },
            TeardownStep::Close => Some(Operation::CloseSource),
        }
    }

    /// Takes the outcome of the dispatch that a step of the teardown asked for.
    /// A reset that succeeded leaves the source enabled, a disabling that
    /// succeeded leaves it open; a failure changes nothing and is no error, and
    /// the outcome of closing changes nothing either.
    pub fn finish_teardown(&mut self, step: TeardownStep, res: Response)
        ensures
            *final(self) == old(self).spec_finish_teardown(step, res),
    {
        match step {
            TeardownStep::ResetPendingTransfers => {
                let _ = self.finish_reset_pending_transfers(res);
            },
            TeardownStep::Disable => {
                let _ = self.finish_disable(res);
            },
            TeardownStep::Close => {},
        }
    }
}

/// Enabling from any state but `SourceOpen` fails with `InvalidState` of that
/// state, asks for no dispatch and leaves the session as it was.
pub proof fn lemma_enable_needs_source_open(ds: OpenedDS)
    requires
        ds.state != DSState::SourceOpen,
    ensures
        ds.spec_enable().1 == Err::<Operation, DSError>(DSError::InvalidState(ds.state)),
        ds.spec_enable().0 == ds,
{
}

/// Every guarded operation, asked for outside the one state that allows it,
/// fails with `InvalidState` of the state it was asked in and asks for no
/// dispatch.
pub proof fn lemma_guards(ds: OpenedDS)
    ensures
        ds.state != DSState::SourceOpen ==> ds.spec_enable().1 == Err::<Operation, DSError>(
            DSError::InvalidState(ds.state),
        ),
        ds.state != DSState::SourceEnabled ==> ds.spec_disable() == Err::<
            (Operation, UserInterface),
            DSError,
        >(DSError::InvalidState(ds.state)),
        ds.state != DSState::TransferReady ==> ds.spec_reset_pending_transfers() == Err::<
            Operation,
            DSError,
        >(DSError::InvalidState(ds.state)),
        ds.state != DSState::TransferReady ==> ds.spec_acquire_native_image() == Err::<
            Operation,
            DSError,
        >(DSError::InvalidState(ds.state)),
        ds.state == DSState::SourceOpen ==> ds.spec_enable().1 is Ok,
        ds.state == DSState::SourceEnabled && ds.ui is Some ==> ds.spec_disable() is Ok,
        ds.state == DSState::TransferReady ==> ds.spec_reset_pending_transfers() is Ok
            && ds.spec_acquire_native_image() is Ok,
{
}

/// No state is the last one: from each of them a step of the session leads to
/// another.
pub proof fn lemma_no_state_is_terminal(ds: OpenedDS, ok: Response)
    requires
        ok.is_success(),
    ensures
        ds.state == DSState::SourceOpen ==> ds.spec_enable().0.state == DSState::SourceEnabled,
        ds.state == DSState::SourceEnabled ==> ds.spec_callback(MSG_XFERREADY).state
            == DSState::TransferReady && ds.spec_finish_disable(ok).0.state
            == DSState::SourceOpen,
        ds.state == DSState::TransferReady ==> ds.spec_finish_reset_pending_transfers(ok).0.state
            == DSState::SourceEnabled,
        ds.state == DSState::Transferring ==> ds.spec_finish_acquire_native_image(ok, 0).state
            == DSState::SourceEnabled && ds.spec_finish_acquire_native_image(ok, 1).state
            == DSState::TransferReady,
{
}

/// After an enabling that succeeded, disabling is allowed and is dispatched
/// with the user interface that the source was enabled with. Where that
/// dispatch succeeds the source is back in `SourceOpen` with no user interface;
/// where it fails the source stays in `SourceEnabled`, and the response comes
/// back in `BadResponse`.
pub proof fn lemma_enable_then_disable(
    ds: OpenedDS,
    ui: UserInterface,
    enabled: Response,
    disabled: Response,
)
    requires
        ds.state == DSState::SourceOpen,
        enabled.is_success(),
    ensures
        ({
            let begun = ds.spec_enable();
            let done = begun.0.spec_finish_enable(ui, enabled);
            let after = done.0.spec_finish_disable(disabled);
            &&& begun.1 == Ok::<Operation, DSError>(Operation::EnableSource)
            &&& done.1 == Ok::<(), DSError>(())
            &&& done.0 == ds.with_state(DSState::SourceEnabled).with_ui(Some(ui))
            &&& done.0.spec_disable() == Ok::<(Operation, UserInterface), DSError>(
                (Operation::DisableSource, ui),
            )
            &&& disabled.is_success() ==> after.1 == Ok::<(), DSError>(()) && after.0
                == ds.with_ui(None)
            &&& !disabled.is_success() ==> after.1 == Err::<(), DSError>(
                DSError::BadResponse(disabled),
            ) && after.0 == done.0 && after.0.state == DSState::SourceEnabled
        }),
{
}

/// An enabling whose dispatch failed leaves the source in `SourceOpen`,
/// whatever the driver sent meanwhile, and no user interface is kept.
pub proof fn lemma_enable_rolls_back(
    ds: OpenedDS,
    ui: UserInterface,
    msg: u16,
    res: Response,
)
    requires
        ds.state == DSState::SourceOpen,
        !res.is_success(),
    ensures
        ds.spec_enable().0.spec_callback(msg).spec_finish_enable(ui, res).0 == ds,
        ds.spec_enable().0.spec_callback(msg).spec_finish_enable(ui, res).1 == Err::<
            (),
            DSError,
        >(DSError::BadResponse(res)),
{
}

/// A message that an image waits, sent while the enabling call is under way,
/// is not lost: after an enabling that succeeded the source is in
/// `TransferReady`.
pub proof fn lemma_transfer_ready_during_enable(ds: OpenedDS, ui: UserInterface, res: Response)
    requires
        ds.state == DSState::SourceOpen,
        res.is_success(),
    ensures
        ds.spec_enable().0.spec_callback(MSG_XFERREADY).spec_finish_enable(ui, res).0
            == ds.with_state(DSState::TransferReady).with_ui(Some(ui)),
{
}

/// An acquisition ends by the number of images that still wait: in
/// `SourceEnabled` where it is zero, in `TransferReady` where it is not, from
/// whatever state the end of the transfer was reported in. Where ending the
/// transfer failed the state is left as it was.
pub proof fn lemma_acquisition_ends(ds: OpenedDS, res: Response, count: u16)
    ensures
        res.is_success() && count == 0 ==> ds.spec_finish_acquire_native_image(res, count)
            == ds.with_state(DSState::SourceEnabled),
        res.is_success() && count > 0 ==> ds.spec_finish_acquire_native_image(res, count)
            == ds.with_state(DSState::TransferReady),
        !res.is_success() ==> ds.spec_finish_acquire_native_image(res, count) == ds,
{
}

/// A teardown always asks for the source to be closed, and unwinds the state
/// first: where every dispatch succeeds, a session that was enabled or ready to
/// transfer is in `SourceOpen` with no user interface when it is closed. A
/// step that fails stops none of the later ones.
pub proof fn lemma_teardown_unwinds(ds: OpenedDS, reset: Response, disable: Response)
    ensures
        ds.spec_torn_down(reset, disable).spec_teardown(TeardownStep::Close) == Some(
            Operation::CloseSource,
        ),
        reset.is_success() && disable.is_success() && ds.ui is Some && (ds.state
            == DSState::SourceEnabled || ds.state == DSState::TransferReady) ==> ds.spec_torn_down(
            reset,
            disable,
        ) == ds.with_ui(None).with_state(DSState::SourceOpen),
        ds.state == DSState::SourceOpen || ds.state == DSState::Transferring ==> ds.spec_torn_down(
            reset,
            disable,
        ) == ds,
{
}

} // verus!
