//! Feed definitions, and the registry that names them.
//!
//! The registry keeps the feeds by identifier. It assigns the identifiers
//! in the order of arrival, starting at 1, and never reuses one. Producers take the identifier of a stored feed as
//! the task identifier of the commands that they send for it.
use std::collections::HashMap;
use vstd::prelude::*;

verus! {

/// A feed to poll: where to fetch it, how often, and with which headers.
#[derive(Clone, Debug)]
pub struct Feed {
    pub id: usize,
    pub name: String,
    pub url: String,
    /// The polling period in seconds.
    pub frequency: u64,
    pub headers: HashMap<String, String>,
}

/// A feed as a producer describes it, before it has an identifier.
#[derive(Clone, Debug)]
pub struct CreateFeed {
    pub name: String,
    pub url: String,
    /// The polling period in seconds.
    pub frequency: u64,
    pub headers: HashMap<String, String>,
}

/// The feed that `payload` describes, under the identifier `id`.
pub open spec fn feed_of(id: usize, payload: CreateFeed) -> Feed {
    Feed {
        id,
        name: payload.name,
        url: payload.url,
        frequency: payload.frequency,
        headers: payload.headers,
    }
}

/// The feeds with an identifier below `upto`, in rising order of their
/// identifiers.
pub open spec fn listing(feeds: Map<usize, Feed>, upto: nat) -> Seq<Feed>
    decreases upto,
{
    if upto == 0 {
        Seq::empty()
    } else {
        let id = (upto - 1) as usize;
        let earlier = listing(feeds, (upto - 1) as nat);
        if feeds.contains_key(id) {
            earlier.push(feeds[id])
        } else {
            earlier
        }
    }
}

/// The listing leaves out no feed: every feed with an identifier below
/// `upto` occurs in it.
pub proof fn law_listing_holds_every_feed(feeds: Map<usize, Feed>, upto: nat, id: usize)
    requires
        feeds.contains_key(id),
        id < upto,
    ensures
        listing(feeds, upto).contains(feeds[id]),
    decreases upto,
{
    let earlier = listing(feeds, (upto - 1) as nat);
    if id == upto - 1 {
        assert(earlier.push(feeds[id]).last() == feeds[id]);
    } else {
        law_listing_holds_every_feed(feeds, (upto - 1) as nat, id);
        let at = choose|at: int| 0 <= at < earlier.len() && earlier[at] == feeds[id];
        assert(listing(feeds, upto)[at] == feeds[id]);
    }
}

/// The stored feeds, by identifier.
pub struct FeedRegistry {
    next_feed_id: usize,
    db: HashMap<usize, Feed>,
}

impl View for FeedRegistry {
    type V = Map<usize, Feed>;

    closed spec fn view(&self) -> Map<usize, Feed> {
        self.db@
    }
}

impl FeedRegistry {
    /// The identifier that the next stored feed gets.
    pub closed spec fn next_id(&self) -> usize {
        self.next_feed_id
    }

    /// Every feed is stored under its own identifier, and that identifier
    /// was assigned before.
    pub open spec fn well_formed(&self) -> bool {
        &&& self.next_id() >= 1
        &&& forall|id: usize| #[trigger]
            self@.contains_key(id) ==> 1 <= id < self.next_id() && self@[id].id == id
    }

    /// An empty registry. Its first feed gets the identifier 1.
    pub fn new() -> (registry: Self)
        ensures
            registry@ == Map::<usize, Feed>::empty(),
            registry.next_id() == 1,
            registry.well_formed(),
    {
        FeedRegistry { next_feed_id: 1, db: HashMap::new() }
    }

    /// Stores the feed that `payload` describes under the next identifier
    /// and returns that identifier. `None`, with nothing stored, once the
    /// identifiers are used up.
    pub fn post(&mut self, payload: CreateFeed) -> (id: Option<usize>)
        requires
            old(self).well_formed(),
        ensures
            final(self).well_formed(),
            match id {
                Some(id) => {
                    &&& id == old(self).next_id()
                    &&& !old(self)@.contains_key(id)
                    &&& id < usize::MAX
                    &&& final(self).next_id() == id + 1
                    &&& final(self)@ == old(self)@.insert(id, feed_of(id, payload))
                },
                None => {
                    &&& old(self).next_id() == usize::MAX
                    &&& final(self).next_id() == old(self).next_id()
                    &&& final(self)@ == old(self)@
                },
            },
    {
        broadcast use vstd::std_specs::hash::group_hash_axioms;

        if self.next_feed_id == usize::MAX {
            return None;
        }
        let id = self.next_feed_id;
        let CreateFeed { name, url, frequency, headers } = payload;
        self.db.insert(id, Feed { id, name, url, frequency, headers });
        self.next_feed_id = id + 1;
        proof {
            assert forall|k: usize| #[trigger] self@.contains_key(k) implies 1 <= k
                < self.next_id() && self@[k].id == k by {
                if k != id {
                    assert(old(self)@.contains_key(k));
                }
            }
        }
        Some(id)
    }

    /// The stored feed with the identifier `id`.
    pub fn get(&self, id: usize) -> (feed: Option<&Feed>)
        ensures
            match feed {
                Some(feed) => self@.contains_key(id) && *feed == self@[id],
                None => !self@.contains_key(id),
            },
    {
        broadcast use vstd::std_specs::hash::group_hash_axioms;

        self.db.get(&id)
    }

    /// Replaces the stored feed with the identifier `id` by the feed that
    /// `payload` describes, under the same identifier. Returns whether
    /// there was such a feed; where not, nothing changes.
    pub fn put(&mut self, id: usize, payload: CreateFeed) -> (known: bool)
        requires
            old(self).well_formed(),
        ensures
            final(self).well_formed(),
            final(self).next_id() == old(self).next_id(),
            known == old(self)@.contains_key(id),
            final(self)@ == (if known {
                old(self)@.insert(id, feed_of(id, payload))
            } else {
                old(self)@
            }),
    {
        broadcast use vstd::std_specs::hash::group_hash_axioms;

        if self.db.contains_key(&id) {
            let CreateFeed { name, url, frequency, headers } = payload;
            self.db.insert(id, Feed { id, name, url, frequency, headers });
            proof {
                assert forall|k: usize| #[trigger] self@.contains_key(k) implies 1 <= k
                    < self.next_id() && self@[k].id == k by {
                    assert(old(self)@.contains_key(k));
                }
            }
            true
        } else {
            false
        }
    }

    /// Takes the feed with the identifier `id` out of the registry and
    /// returns it. `None`, with nothing changed, where there is no such
    /// feed. The identifier is not assigned again.
    pub fn delete(&mut self, id: usize) -> (feed: Option<Feed>)
        requires
            old(self).well_formed(),
        ensures
            final(self).well_formed(),
            final(self).next_id() == old(self).next_id(),
            final(self)@ == old(self)@.remove(id),
            match feed {
                Some(feed) => old(self)@.contains_key(id) && feed == old(self)@[id] && feed.id
                    == id,
                None => !old(self)@.contains_key(id),
            },
    {
        broadcast use vstd::std_specs::hash::group_hash_axioms;

        let feed = self.db.remove(&id);
        proof {
            assert forall|k: usize| #[trigger] self@.contains_key(k) implies 1 <= k
                < self.next_id() && self@[k].id == k by {
                assert(old(self)@.contains_key(k));
            }
            if feed is Some {
                assert(old(self)@.contains_key(id));
            }
        }
        feed
    }

    /// All stored feeds, in rising order of their identifiers.
    pub fn list(&self) -> (feeds: Vec<&Feed>)
        ensures
            feeds@.len() == listing(self@, self.next_id() as nat).len(),
            forall|at: int|
                0 <= at < feeds@.len() ==> *(#[trigger] feeds@[at]) == listing(
                    self@,
                    self.next_id() as nat,
                )[at],
    {
        broadcast use vstd::std_specs::hash::group_hash_axioms;

        let mut feeds: Vec<&Feed> = Vec::new();
        let mut id: usize = 0;
        while id < self.next_feed_id
            invariant
                id <= self.next_feed_id,
                feeds@.len() == listing(self@, id as nat).len(),
                forall|at: int|
                    0 <= at < feeds@.len() ==> *(#[trigger] feeds@[at]) == listing(
                        self@,
                        id as nat,
                    )[at],
            decreases self.next_feed_id - id,
        {
            match self.db.get(&id) {
                Some(feed) => {
                    feeds.push(feed);
                },
                None => {},
            }
            id += 1;
        }
        feeds
    }
}

} // verus!
