//! The manager session: the open connection to the source manager.
use crate::dispatch::Operation;
use crate::ds::{DSState, OpenedDS};
use crate::entrypoint::{EntryPoints, TwEntryPoint};
use crate::response::{Response, ReturnCode};
use crate::twain_h::{Identity, DF_APP2, DF_DSM2};
use crate::twain_h_ext::str32_text;
use vstd::prelude::*;

verus! {

/// The open connection to the source manager: the identity of the application
/// as the manager left it, and the memory functions in use, if there are any.
pub struct OpenedDSM<A, F, L, U> {
    pub app_identity: Identity,
    pub entry_points: Option<EntryPoints<A, F, L, U>>,
}

/// A listing of the sources under way: those that the manager has named so far,
/// in the order in which it named them.
pub struct DataSources {
    sources: Vec<Identity>,
}

/// Where a listing stands after a reply of the manager.
pub enum Listing {
    /// The manager named a source and may name more.
    More(DataSources),
    /// The manager has named all its sources: here they are, in its order.
    Complete(Vec<Identity>),
    /// The listing failed with this response; the sources named before it are
    /// dropped.
    Failed(Response),
}

/// Where a listing stands, by the sources named.
pub enum ListingView {
    More(Seq<Identity>),
    Complete(Seq<Identity>),
    Failed(Response),
}

/// Where a listing that has named `named` stands after one more reply.
pub open spec fn listing_reply(named: Seq<Identity>, res: Response, identity: Identity) -> ListingView {
    if res.return_code == ReturnCode::Success {
        ListingView::More(named.push(identity))
    } else if res.return_code == ReturnCode::EndOfList {
        ListingView::Complete(named)
    } else {
        ListingView::Failed(res)
    }
}

/// Where a listing that has named `named` stands after the replies `replies`
/// came in, in turn. A listing that is complete or has failed takes no more
/// replies: what follows in `replies` is not looked at.
pub open spec fn listing_after(named: Seq<Identity>, replies: Seq<(Response, Identity)>) -> ListingView
    decreases replies.len(),
{
    if replies.len() == 0 {
        ListingView::More(named)
    } else {
        match listing_reply(named, replies[0].0, replies[0].1) {
            ListingView::More(more) => listing_after(more, replies.drop_first()),
            over => over,
        }
    }
}

/// Whether application and manager both speak version 2, by the supported
/// groups of the identity as the manager left it.
pub open spec fn spec_use_twain2(identity: Identity) -> bool {
    identity.supported_groups & DF_APP2 != 0 && identity.supported_groups & DF_DSM2 != 0
}

/// Whether application and manager both speak version 2.
#[verifier::when_used_as_spec(spec_use_twain2)]
pub fn use_twain2(identity: Identity) -> (r: bool)
    ensures
        r == spec_use_twain2(identity),
{
    identity.supported_groups & DF_APP2 != 0 && identity.supported_groups & DF_DSM2 != 0
}

impl<A, F, L, U> OpenedDSM<A, F, L, U> {
    /// What `negotiate` returns.
    pub open spec fn spec_negotiate(&self) -> Option<Operation> {
        if spec_use_twain2(self.app_identity) {
            Some(Operation::GetEntryPoints)
        } else {
            None
        }
    }

    /// The session after `finish_negotiate`.
    pub open spec fn spec_finish_negotiate(self, res: Response, ep: TwEntryPoint<A, F, L, U>) -> Self {
        if spec_use_twain2(self.app_identity) && res.is_success() && ep.is_complete() {
            OpenedDSM {
                entry_points: Some(
                    EntryPoints {
                        allocate: ep.mem_allocate->0,
                        free: ep.mem_free->0,
                        lock: ep.mem_lock->0,
                        unlock: ep.mem_unlock->0,
                    },
                ),
                ..self
            }
        } else {
            self
        }
    }

    /// Makes the session from the outcome of the dispatch of `OpenManager`:
    /// the identity of the application as the manager left it, and the
    /// response. Where the dispatch did not succeed there is no session, and
    /// its response comes back. Otherwise the session holds the identity, and
    /// `os_default` as its memory functions: those of the platform, if it has
    /// any, which stay in use unless `finish_negotiate` adopts the manager's.
    pub fn new(
        app_identity: Identity,
        res: Response,
        os_default: Option<EntryPoints<A, F, L, U>>,
    ) -> (r: Result<Self, Response>)
        ensures
            !res.is_success() ==> r is Err && r->Err_0 == res,
            res.is_success() ==> r is Ok,
            r is Ok ==> r->Ok_0.app_identity == app_identity,
            r is Ok ==> r->Ok_0.entry_points == os_default,
    {
        if !res.is_success() {
            return Err(res);
        }
        Ok(OpenedDSM { app_identity, entry_points: os_default })
    }

    /// Whether to ask the manager for its memory functions, and with which
    /// operation: only where application and manager both speak version 2. The
    /// host dispatches the operation returned, with an empty entry-point
    /// structure as its data, and hands the outcome to `finish_negotiate`.
    pub fn negotiate(&self) -> (r: Option<Operation>)
        ensures
            r == self.spec_negotiate(),
    {
        if use_twain2(self.app_identity) {
            Some(Operation::GetEntryPoints)
        } else {
            None
        }
    }

    /// Takes the outcome of asking for the manager's memory functions: the
    /// response and the structure as the manager filled it in. Where the
    /// session had reason to ask, the dispatch succeeded and all four functions
    /// are there, they are in use from now on. Otherwise those in use stay;
    /// this is no error.
    pub fn finish_negotiate(&mut self, res: Response, ep: TwEntryPoint<A, F, L, U>)
        ensures
            *final(self) == old(self).spec_finish_negotiate(res, ep),
    {
        if use_twain2(self.app_identity) && res.is_success() {
            match EntryPoints::from_tw_entrypoint(ep) {
                Some(negotiated) => {
                    self.entry_points = Some(negotiated);
                },
                None => {},
            }
        }
    }

    /// Begins listing the sources: none is named yet.
    pub fn get_data_sources(&self) -> (list: DataSources)
        ensures
            list@ == Seq::<Identity>::empty(),
    {
        DataSources { sources: Vec::new() }
    }

    /// Makes the session of a source from the outcome of the dispatch of
    /// `OpenSource`, as `OpenedDS::new` does.
    pub fn open_data_source(&self, requested: &Identity, res: Response, opened: Identity) -> (r:
        Result<OpenedDS, Response>)
        ensures
            !res.is_success() ==> r == Err::<OpenedDS, Response>(res),
            res.is_success() ==> r is Ok,
            r is Ok ==> r->Ok_0.name@ == str32_text(requested.product_name@),
            r is Ok ==> r->Ok_0.ds_identity == opened,
            r is Ok ==> r->Ok_0.ui is None,
            r is Ok ==> r->Ok_0.state == DSState::SourceOpen,
    {
        OpenedDS::new(requested, res, opened)
    }

    /// What to dispatch to end the session. Whatever the outcome, the session is
    /// over: a manager that fails to close is not asked again.
    pub fn close(&self) -> (op: Operation)
        ensures
            op == Operation::CloseManager,
    {
        Operation::CloseManager
    }
}

impl View for DataSources {
    type V = Seq<Identity>;

    /// The sources named so far, in the manager's order.
    closed spec fn view(&self) -> Seq<Identity> {
        self.sources@
    }
}

impl View for Listing {
    type V = ListingView;

    open spec fn view(&self) -> ListingView {
        match *self {
            Listing::More(list) => ListingView::More(list@),
            Listing::Complete(sources) => ListingView::Complete(sources@),
            Listing::Failed(res) => ListingView::Failed(res),
        }
    }
}

impl DataSources {
    /// What `operation` returns.
    pub open spec fn spec_operation(&self) -> Operation {
        if self@.len() == 0 {
            Operation::GetFirstSource
        } else {
            Operation::GetNextSource
        }
    }

    /// What to dispatch next, with an empty identity as its data: the first
    /// source is asked for until one has been named, the next one after that.
    pub fn operation(&self) -> (op: Operation)
        ensures
            op == self.spec_operation(),
    {
        if self.sources.len() == 0 {
            Operation::GetFirstSource
        } else {
            Operation::GetNextSource
        }
    }

    /// Takes the reply to `operation`: the response and the identity as the
    /// manager filled it in.
    ///
    /// - `Success`: the identity is the next source; the listing goes on.
    /// - `EndOfList`: the listing is complete, with the sources named so far, in
    ///   the order in which they were named, none left out and none twice
    ///   unless the manager named it twice. The identity of this reply is no
    ///   source.
    /// - anything else: the listing has failed with this response.
    pub fn reply(self, res: Response, identity: Identity) -> (r: Listing)
        ensures
            r@ == listing_reply(self@, res, identity),
    {
        let mut sources = self.sources;
        match res.return_code {
            ReturnCode::Success => {
                sources.push(identity);
                Listing::More(DataSources { sources })
            },
            ReturnCode::EndOfList => Listing::Complete(sources),
            _ => Listing::Failed(res),
        }
    }
}

/// A listing that takes replies one after the other is one listing: taking
/// `first` and then `then` is taking them all in turn.
pub proof fn lemma_listing_after_concat(
    named: Seq<Identity>,
    first: Seq<(Response, Identity)>,
    then: Seq<(Response, Identity)>,
)
    ensures
        listing_after(named, first + then) == match listing_after(named, first) {
            ListingView::More(more) => listing_after(more, then),
            over => over,
        },
    decreases first.len(),
{
    if first.len() == 0 {
        assert(first + then =~= then);
    } else {
        assert((first + then).drop_first() =~= first.drop_first() + then);
        match listing_reply(named, first[0].0, first[0].1) {
            ListingView::More(more) => {
                lemma_listing_after_concat(more, first.drop_first(), then);
            },
            _ => {},
        }
    }
}

/// A manager that names the sources `sources`, one per reply, and then reports
/// the end of its list is listed completely and in its order, nothing sorted,
/// nothing left out and nothing dropped for being named twice. With no source
/// to name, the listing is complete and empty.
pub proof fn lemma_listing_in_order(sources: Seq<Identity>, replies: Seq<(Response, Identity)>)
    requires
        replies.len() == sources.len() + 1,
        forall|i: int|
            0 <= i < sources.len() ==> (#[trigger] replies[i]).0.return_code
                == ReturnCode::Success && replies[i].1 == sources[i],
        replies.last().0.return_code == ReturnCode::EndOfList,
    ensures
        listing_after(Seq::empty(), replies) == ListingView::Complete(sources),
{
    lemma_listing_named(Seq::empty(), sources, replies.drop_last());
    assert(replies =~= replies.drop_last() + seq![replies.last()]);
    lemma_listing_after_concat(Seq::empty(), replies.drop_last(), seq![replies.last()]);
    assert(seq![replies.last()].drop_first() =~= Seq::empty());
    assert(Seq::<Identity>::empty() + sources =~= sources);
}

/// A listing goes on for as long as the manager names sources, and has then
/// named them all, after those it had named before.
pub proof fn lemma_listing_named(
    named: Seq<Identity>,
    sources: Seq<Identity>,
    replies: Seq<(Response, Identity)>,
)
    requires
        replies.len() == sources.len(),
        forall|i: int|
            0 <= i < sources.len() ==> (#[trigger] replies[i]).0.return_code
                == ReturnCode::Success && replies[i].1 == sources[i],
    ensures
        listing_after(named, replies) == ListingView::More(named + sources),
    decreases replies.len(),
{
    if replies.len() == 0 {
        assert(named + sources =~= named);
    } else {
        let rest = replies.drop_first();
        assert forall|i: int| 0 <= i < sources.drop_first().len() implies (#[trigger] rest[i]).0.return_code
            == ReturnCode::Success && rest[i].1 == sources.drop_first()[i] by {
            assert(rest[i] == replies[i + 1]);
        }
        lemma_listing_named(named.push(sources[0]), sources.drop_first(), rest);
        assert(named.push(sources[0]) + sources.drop_first() =~= named + sources);
    }
}

/// A listing fails with the first reply that is neither a success nor the end
/// of the list, whatever was named before it and whatever follows.
pub proof fn lemma_listing_fails(
    sources: Seq<Identity>,
    named: Seq<(Response, Identity)>,
    res: Response,
    identity: Identity,
    rest: Seq<(Response, Identity)>,
)
    requires
        named.len() == sources.len(),
        forall|i: int|
            0 <= i < sources.len() ==> (#[trigger] named[i]).0.return_code == ReturnCode::Success
                && named[i].1 == sources[i],
        res.return_code != ReturnCode::Success,
        res.return_code != ReturnCode::EndOfList,
    ensures
        listing_after(Seq::empty(), named + seq![(res, identity)] + rest) == ListingView::Failed(
            res,
        ),
{
    let failing = seq![(res, identity)] + rest;
    lemma_listing_named(Seq::empty(), sources, named);
    assert(named + seq![(res, identity)] + rest =~= named + failing);
    lemma_listing_after_concat(Seq::empty(), named, failing);
    assert(failing[0] == (res, identity));
}

} // verus!
