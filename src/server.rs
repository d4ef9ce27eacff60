//! The server's side of a session: one reply per request, plus one deferred
//! reply scheduled on the second request.
use vstd::prelude::*;
use std::sync::atomic::{AtomicU64, Ordering};
use crate::model::{AdsList, AdsListView, Context, ContextView};
use crate::scoring::{generate_ads, generate_spec};

verus! {

/// The request whose arrival schedules the deferred reply.
pub const DEFERRED_AFTER_REQUEST: u32 = 2;

/// The version that the deferred reply is stamped with.
pub const DEFERRED_VERSION: u32 = 3;

/// How long the deferred reply waits, in milliseconds.
pub const DEFERRED_DELAY_MS: u64 = 50;

/// The replies that a session sends at once, one per request, in arrival
/// order: the reply to the `i`-th request (from zero) has version `i + 1`.
pub open spec fn immediate_replies(requests: Seq<ContextView>) -> Seq<AdsListView> {
    Seq::new(requests.len(), |i: int| generate_spec(requests[i], (i + 1) as u32))
}

/// The deferred replies of a session: one, made from the second request,
/// once a second request has come.
pub open spec fn deferred_replies(requests: Seq<ContextView>) -> Seq<AdsListView> {
    if requests.len() >= DEFERRED_AFTER_REQUEST {
        seq![generate_spec(requests[DEFERRED_AFTER_REQUEST - 1], DEFERRED_VERSION)]
    } else {
        Seq::empty()
    }
}

/// Over any sequence of `n` requests, a session replies to each at once,
/// with versions `1..=n` in arrival order, and schedules exactly one deferred
/// reply, of version 3, if and only if `n >= 2`.
pub proof fn lemma_session_replies(requests: Seq<ContextView>)
    requires
        requests.len() <= u32::MAX,
    ensures
        immediate_replies(requests).len() == requests.len(),
        forall|i: int|
            0 <= i < requests.len() ==> #[trigger] immediate_replies(requests)[i].version == i + 1,
        deferred_replies(requests).len() == (if requests.len() >= 2 {
            1int
        } else {
            0int
        }),
        forall|d: int|
            0 <= d < deferred_replies(requests).len() ==> #[trigger] deferred_replies(
                requests,
            )[d].version == 3,
{
}

/// Where a session stands.
pub enum SessionPhase {
    /// No request has come yet.
    Open,
    /// Requests have come and more may follow.
    Streaming,
    /// The inbound stream ended, failed, or the peer went away.
    Closed,
}

/// What a session does with one request.
pub struct RequestOutcome {
    /// The reply to send at once.
    pub reply: AdsList,
    /// The request to make the deferred reply from, after
    /// `DEFERRED_DELAY_MS`, when this request schedules it.
    pub deferred: Option<Context>,
}

/// One session's state on the server.
pub struct Session {
    session_id: u64,
    request_count: u32,
    phase: SessionPhase,
    received: Ghost<Seq<ContextView>>,
}

impl Session {
    pub closed spec fn id(&self) -> u64 {
        self.session_id
    }

    /// The requests received so far, in arrival order.
    pub closed spec fn received(&self) -> Seq<ContextView> {
        self.received@
    }

    pub closed spec fn phase_spec(&self) -> SessionPhase {
        self.phase
    }

    pub closed spec fn wf(&self) -> bool {
        &&& self.request_count == self.received@.len()
        &&& (self.phase is Open ==> self.request_count == 0)
    }

    /// A session numbered `session_id`, before any request.
    pub fn new(session_id: u64) -> (r: Session)
        ensures
            r.wf(),
            r.id() == session_id,
            r.received() == Seq::<ContextView>::empty(),
            r.phase_spec() is Open,
    {
        Session { session_id, request_count: 0, phase: SessionPhase::Open, received: Ghost(Seq::empty()) }
    }

    /// The session that follows the counter value `previous`: numbered
    /// `previous + 1`, or none once the numbers are used up.
    pub fn after(previous: u64) -> (r: Option<Session>)
        ensures
            r is Some <==> previous < u64::MAX,
            r matches Some(s) ==> s.wf() && s.id() == previous + 1 && s.received().len() == 0
                && s.phase_spec() is Open,
    {
        if previous < u64::MAX {
            Some(Session::new(previous + 1))
        } else {
            None
        }
    }

    pub fn session_id(&self) -> (r: u64)
        ensures
            r == self.id(),
    {
        self.session_id
    }

    pub fn request_count(&self) -> (r: u32)
        requires
            self.wf(),
        ensures
            r == self.received().len(),
    {
        self.request_count
    }

    /// Whether the session still takes requests.
    pub fn is_open(&self) -> (r: bool)
        ensures
            r == !(self.phase_spec() is Closed),
    {
        !matches!(self.phase, SessionPhase::Closed)
    }

    /// Takes one request: the reply to send at once has the request's
    /// position in the session as its version, and the second request also
    /// schedules the deferred reply.
    pub fn on_request(&mut self, context: Context) -> (r: RequestOutcome)
        requires
            old(self).wf(),
            !(old(self).phase_spec() is Closed),
            old(self).received().len() < u32::MAX,
        ensures
            final(self).wf(),
            final(self).id() == old(self).id(),
            final(self).phase_spec() is Streaming,
            final(self).received() == old(self).received().push(context@),
            r.reply@ == immediate_replies(final(self).received()).last(),
            r.reply@ == generate_spec(context@, final(self).received().len() as u32),
            r.deferred is Some <==> final(self).received().len() == DEFERRED_AFTER_REQUEST,
            r.deferred matches Some(c) ==> c@ == context@ && deferred_replies(
                final(self).received(),
            ) == seq![generate_spec(c@, DEFERRED_VERSION)],
    {
        self.request_count = self.request_count + 1;
        self.phase = SessionPhase::Streaming;
        proof {
            self.received@ = self.received@.push(context@);
        }
        let reply = generate_ads(&context, self.request_count);
        if self.request_count == DEFERRED_AFTER_REQUEST {
            RequestOutcome { reply, deferred: Some(context) }
        } else {
            RequestOutcome { reply, deferred: None }
        }
    }

    /// The inbound stream ended, or the peer stopped listening: no more
    /// requests are taken.
    pub fn on_end(&mut self)
        requires
            old(self).wf(),
        ensures
            final(self).wf(),
            final(self).id() == old(self).id(),
            final(self).received() == old(self).received(),
            final(self).phase_spec() is Closed,
    {
        self.phase = SessionPhase::Closed;
    }

    /// The inbound stream failed: returns whether to forward the error to
    /// the peer, which is the case once, unless the session was closed
    /// already. No more requests are taken.
    pub fn on_error(&mut self) -> (r: bool)
        requires
            old(self).wf(),
        ensures
            r == !(old(self).phase_spec() is Closed),
            final(self).wf(),
            final(self).id() == old(self).id(),
            final(self).received() == old(self).received(),
            final(self).phase_spec() is Closed,
    {
        let forward = self.is_open();
        self.phase = SessionPhase::Closed;
        forward
    }
}

/// The deferred reply, made from the request that scheduled it.
pub fn deferred_reply(context: &Context) -> (r: AdsList)
    ensures
        r@ == generate_spec(context@, DEFERRED_VERSION),
{
    generate_ads(context, DEFERRED_VERSION)
}

/// The service: the only state that its sessions share is the counter that
/// numbers them.
pub struct AdsServiceImpl {
    session_counter: AtomicU64,
}

impl AdsServiceImpl {
    /// A service that has opened no session yet.
    pub fn new() -> (r: AdsServiceImpl) {
        AdsServiceImpl { session_counter: AtomicU64::new(0) }
    }

    /// Opens a session under the next number of the counter; none once the
    /// numbers are used up.
    pub fn open_session(&self) -> (r: Option<Session>)
        ensures
            r matches Some(s) ==> s.wf() && s.id() >= 1 && s.received().len() == 0
                && s.phase_spec() is Open,
    {
        let previous = self.session_counter.fetch_add(1, Ordering::SeqCst);
        Session::after(previous)
    }
}

} // verus!
