//! The client's side of a session: the two requests it sends, the deadline
//! it waits for, and the buffer it picks its result from.
use vstd::prelude::*;
use std::collections::HashMap;
use crate::model::{AdsList, Context, ContextView};
use crate::draws::random_between;

verus! {

/// How long the client waits between its two requests, in milliseconds.
pub const SECOND_REQUEST_DELAY_MS: u64 = 50;

/// The shortest deadline, in milliseconds.
pub const MIN_DEADLINE_MS: i64 = 30;

/// The longest deadline, in milliseconds.
pub const MAX_DEADLINE_MS: i64 = 120;

/// The largest jitter added to a deadline, in milliseconds.
pub const MAX_JITTER_MS: i64 = 5;

/// The largest jitter taken from a deadline, in milliseconds, as a negative
/// number.
pub const MIN_JITTER_MS: i64 = -5;

/// A drawn base plus a drawn jitter, brought back into the deadline's range.
pub open spec fn deadline_of(base: int, jitter: int) -> int {
    let x = base + jitter;
    if x < MIN_DEADLINE_MS {
        MIN_DEADLINE_MS as int
    } else if x > MAX_DEADLINE_MS {
        MAX_DEADLINE_MS as int
    } else {
        x
    }
}

/// The deadline for a drawn base and jitter.
pub fn deadline_ms(base: i64, jitter: i64) -> (r: u64)
    requires
        MIN_DEADLINE_MS <= base <= MAX_DEADLINE_MS,
        MIN_JITTER_MS <= jitter <= MAX_JITTER_MS,
    ensures
        r == deadline_of(base as int, jitter as int),
        MIN_DEADLINE_MS <= r <= MAX_DEADLINE_MS,
{
    let x = base + jitter;
    if x < MIN_DEADLINE_MS {
        MIN_DEADLINE_MS as u64
    } else if x > MAX_DEADLINE_MS {
        MAX_DEADLINE_MS as u64
    } else {
        x as u64
    }
}

/// Draws a deadline: a base of `30..=120` ms plus a jitter of `-5..=5` ms,
/// brought back into `30..=120` ms.
pub fn draw_deadline_ms() -> (r: u64)
    ensures
        MIN_DEADLINE_MS <= r <= MAX_DEADLINE_MS,
        exists|base: int, jitter: int|
            MIN_DEADLINE_MS <= base <= MAX_DEADLINE_MS && MIN_JITTER_MS <= jitter <= MAX_JITTER_MS
                && r == deadline_of(base, jitter),
{
    let base = random_between(MIN_DEADLINE_MS, MAX_DEADLINE_MS);
    let jitter = random_between(MIN_JITTER_MS, MAX_JITTER_MS);
    deadline_ms(base, jitter)
}

/// One call of the client: the texts it asks with and the replies buffered
/// so far, one per version.
pub struct ClientCall {
    query: String,
    asin_id: String,
    understanding: String,
    buffer: HashMap<u32, AdsList>,
    latest: Option<u32>,
}

impl ClientCall {
    pub closed spec fn query_spec(&self) -> Seq<char> {
        self.query@
    }

    pub closed spec fn asin_id_spec(&self) -> Seq<char> {
        self.asin_id@
    }

    pub closed spec fn understanding_spec(&self) -> Seq<char> {
        self.understanding@
    }

    /// The buffered replies, by version.
    pub closed spec fn buffered(&self) -> Map<u32, AdsList> {
        self.buffer@
    }

    pub closed spec fn wf(&self) -> bool {
        &&& forall|k: u32| #[trigger] self.buffer@.contains_key(k) ==> self.buffer@[k].version == k
        &&& self.latest is None <==> self.buffer@.dom().is_empty()
        &&& self.latest matches Some(v) ==> {
            &&& self.buffer@.contains_key(v)
            &&& forall|k: u32| #[trigger] self.buffer@.contains_key(k) ==> k <= v
        }
    }

    /// A call with nothing buffered yet.
    pub fn new(query: String, asin_id: String, understanding: String) -> (r: ClientCall)
        ensures
            r.wf(),
            r.query_spec() == query@,
            r.asin_id_spec() == asin_id@,
            r.understanding_spec() == understanding@,
            r.buffered() == Map::<u32, AdsList>::empty(),
    {
        let buffer: HashMap<u32, AdsList> = HashMap::new();
        let r = ClientCall { query, asin_id, understanding, buffer, latest: None };
        assert(r.buffer@.dom() =~= Set::<u32>::empty());
        r
    }

    /// The first request: the query and subject, with an empty understanding.
    pub fn first_request(&self) -> (r: Context)
        ensures
            r@ == (ContextView {
                query: self.query_spec(),
                asin_id: self.asin_id_spec(),
                understanding: Seq::empty(),
            }),
    {
        Context { query: self.query.clone(), asin_id: self.asin_id.clone(), understanding: String::new() }
    }

    /// The second request: the query and subject, with the caller's
    /// understanding.
    pub fn second_request(&self) -> (r: Context)
        ensures
            r@ == (ContextView {
                query: self.query_spec(),
                asin_id: self.asin_id_spec(),
                understanding: self.understanding_spec(),
            }),
    {
        Context {
            query: self.query.clone(),
            asin_id: self.asin_id.clone(),
            understanding: self.understanding.clone(),
        }
    }

    /// Buffers a reply under its version; a later reply of a version that is
    /// buffered already takes its place.
    pub fn receive(&mut self, reply: AdsList)
        requires
            old(self).wf(),
        ensures
            final(self).wf(),
            final(self).buffered() == old(self).buffered().insert(reply.version, reply),
            final(self).query_spec() == old(self).query_spec(),
            final(self).asin_id_spec() == old(self).asin_id_spec(),
            final(self).understanding_spec() == old(self).understanding_spec(),
    {
        let version = reply.version;
        let ghost before = self.buffer@;
        self.buffer.insert(version, reply);
        match self.latest {
            Some(v) => {
                if version > v {
                    self.latest = Some(version);
                }
            },
            None => {
                self.latest = Some(version);
            },
        }
        assert(self.buffer@.contains_key(version));
        assert forall|k: u32| #[trigger] self.buffer@.contains_key(k) implies k <= self.latest->0
            && self.buffer@[k].version == k by {
            if k != version {
                assert(before.contains_key(k));
            }
        }
    }

    /// How many versions are buffered.
    pub fn buffered_versions(&self) -> (r: usize)
        ensures
            r == self.buffered().len(),
    {
        self.buffer.len()
    }

    /// Ends the call: the buffered reply of the highest version, or none
    /// when nothing was buffered.
    pub fn finish(self) -> (r: Option<AdsList>)
        requires
            self.wf(),
        ensures
            r is None <==> self.buffered().dom().is_empty(),
            r matches Some(b) ==> {
                &&& self.buffered().contains_key(b.version)
                &&& self.buffered()[b.version] == b
                &&& forall|k: u32| #[trigger] self.buffered().contains_key(k) ==> k <= b.version
            },
    {
        let mut buffer = self.buffer;
        match self.latest {
            Some(v) => buffer.remove(&v),
            None => None,
        }
    }
}

} // verus!
