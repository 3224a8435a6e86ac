//! The subscriptions of one session, at most one per topic.

use crate::locality::Locality;
use vstd::prelude::*;

verus! {

/// One live registration on the overlay network, bound to a topic.
#[derive(Debug)]
pub struct Subscription<H> {
    /// The MQTT topic the registration was made for.
    pub topic: String,
    /// Which publications the registration may receive.
    pub visibility: Locality,
    /// The overlay network's handle; dropping it ends the registration.
    pub handle: H,
}

/// What a registry holds, oldest entry first: the topic, the visibility and
/// the handle of each subscription.
pub type Entries<H> = Seq<(Seq<char>, Locality, H)>;

/// Whether some entry is bound to `topic`.
pub open spec fn subscribed<H>(entries: Entries<H>, topic: Seq<char>) -> bool {
    exists|i: int| 0 <= i < entries.len() && (#[trigger] entries[i]).0 == topic
}

/// Whether no two entries are bound to the same topic.
pub open spec fn distinct_topics<H>(entries: Entries<H>) -> bool {
    forall|i: int, j: int|
        0 <= i < j < entries.len() ==> (#[trigger] entries[i]).0 != (#[trigger] entries[j]).0
}

/// How many entries are bound to `topic`.
pub open spec fn occurrences<H>(entries: Entries<H>, topic: Seq<char>) -> nat
    decreases entries.len(),
{
    if entries.len() == 0 {
        0
    } else {
        let rest = occurrences(entries.drop_last(), topic);
        if entries.last().0 == topic {
            rest + 1
        } else {
            rest
        }
    }
}

/// The entries after a subscription to `topic` has been recorded: unchanged
/// when the topic is already bound, one entry longer otherwise.
pub open spec fn recorded<H>(
    entries: Entries<H>,
    topic: Seq<char>,
    visibility: Locality,
    handle: H,
) -> Entries<H> {
    if subscribed(entries, topic) {
        entries
    } else {
        entries.push((topic, visibility, handle))
    }
}

/// A topic is bound by some entry exactly when it occurs at least once.
pub proof fn lemma_occurrences_subscribed<H>(entries: Entries<H>, topic: Seq<char>)
    ensures
        subscribed(entries, topic) <==> occurrences(entries, topic) > 0,
    decreases entries.len(),
{
    if entries.len() > 0 {
        let front = entries.drop_last();
        lemma_occurrences_subscribed(front, topic);
        if subscribed(entries, topic) {
            let i = choose|i: int| 0 <= i < entries.len() && (#[trigger] entries[i]).0 == topic;
            if i < entries.len() - 1 {
                assert(front[i].0 == topic);
            }
        }
        if subscribed(front, topic) {
            let i = choose|i: int| 0 <= i < front.len() && (#[trigger] front[i]).0 == topic;
            assert(entries[i].0 == topic);
        }
        if entries.last().0 == topic {
            assert(entries[entries.len() - 1].0 == topic);
        }
    }
}

/// Where no two entries share a topic, no topic occurs more than once.
pub proof fn lemma_distinct_occurs_once<H>(entries: Entries<H>, topic: Seq<char>)
    requires
        distinct_topics(entries),
    ensures
        occurrences(entries, topic) <= 1,
    decreases entries.len(),
{
    if entries.len() > 0 {
        let front = entries.drop_last();
        assert forall|i: int, j: int| 0 <= i < j < front.len() implies (#[trigger] front[i]).0 != (
        #[trigger] front[j]).0 by {
            assert(front[i] == entries[i]);
            assert(front[j] == entries[j]);
        }
        lemma_distinct_occurs_once(front, topic);
        if entries.last().0 == topic {
            lemma_occurrences_subscribed(front, topic);
            if subscribed(front, topic) {
                let i = choose|i: int| 0 <= i < front.len() && (#[trigger] front[i]).0 == topic;
                assert(entries[i].0 == entries[entries.len() - 1].0);
            }
        }
    }
}

/// Recording a subscription keeps the topics distinct and leaves the topic
/// bound by exactly one entry.
pub proof fn lemma_recorded_once<H>(
    entries: Entries<H>,
    topic: Seq<char>,
    visibility: Locality,
    handle: H,
)
    requires
        distinct_topics(entries),
    ensures
        distinct_topics(recorded(entries, topic, visibility, handle)),
        subscribed(recorded(entries, topic, visibility, handle), topic),
        occurrences(recorded(entries, topic, visibility, handle), topic) == 1,
{
    let after = recorded(entries, topic, visibility, handle);
    if !subscribed(entries, topic) {
        assert(after[after.len() - 1].0 == topic);
        assert forall|i: int, j: int| 0 <= i < j < after.len() implies (#[trigger] after[i]).0 != (
        #[trigger] after[j]).0 by {
            assert(after[i] == entries[i]);
            if j < entries.len() {
                assert(after[j] == entries[j]);
            }
        }
    }
    lemma_distinct_occurs_once(after, topic);
    lemma_occurrences_subscribed(after, topic);
}

/// The entries that a vector of subscriptions stands for.
pub open spec fn entries_of<H>(subscriptions: Seq<Subscription<H>>) -> Entries<H> {
    Seq::new(
        subscriptions.len(),
        |i: int| (subscriptions[i].topic@, subscriptions[i].visibility, subscriptions[i].handle),
    )
}

/// The subscriptions of one session, keyed by topic.
#[derive(Debug)]
pub struct SubscriptionRegistry<H> {
    entries: Vec<Subscription<H>>,
}

impl<H> SubscriptionRegistry<H> {
    /// The entries of the registry, oldest first.
    pub closed spec fn entries(&self) -> Entries<H> {
        entries_of(self.entries@)
    }

    #[verifier::type_invariant]
    spec fn topics_are_distinct(&self) -> bool {
        distinct_topics(self.entries())
    }

    /// A registry without subscriptions.
    pub fn new() -> (r: Self)
        ensures
            r.entries().len() == 0,
    {
        let r = SubscriptionRegistry { entries: Vec::new() };
        assert(r.entries().len() == 0);
        r
    }

    /// The number of subscriptions; no two of them share a topic.
    pub fn len(&self) -> (n: usize)
        ensures
            n == self.entries().len(),
            distinct_topics(self.entries()),
    {
        proof {
            use_type_invariant(self);
        }
        self.entries.len()
    }

    /// Where the entry bound to `topic` stands, if there is one.
    fn find(&self, topic: &String) -> (at: Option<usize>)
        ensures
            match at {
                Some(i) => i < self.entries().len() && self.entries()[i as int].0 == topic@,
                None => !subscribed(self.entries(), topic@),
            },
    {
        let mut i: usize = 0;
        while i < self.entries.len()
            invariant
                i <= self.entries@.len(),
                forall|k: int| 0 <= k < i ==> (#[trigger] self.entries()[k]).0 != topic@,
            decreases self.entries@.len() - i,
        {
            if self.entries[i].topic == *topic {
                return Some(i);
            }
            i += 1;
        }
        None
    }

    /// Whether a subscription is bound to `topic`.
    pub fn contains(&self, topic: &str) -> (b: bool)
        ensures
            b == subscribed(self.entries(), topic@),
    {
        let owned = topic.to_owned();
        self.find(&owned).is_some()
    }

    /// The subscription bound to `topic`, if there is one.
    pub fn get(&self, topic: &str) -> (r: Option<&Subscription<H>>)
        ensures
            r is Some <==> subscribed(self.entries(), topic@),
            r matches Some(s) ==> s.topic@ == topic@ && exists|i: int|
                0 <= i < self.entries().len() && #[trigger] self.entries()[i] == (
                    topic@,
                    s.visibility,
                    s.handle,
                ),
    {
        let owned = topic.to_owned();
        match self.find(&owned) {
            Some(i) => {
                let s = &self.entries[i];
                assert(self.entries()[i as int] == (topic@, s.visibility, s.handle));
                Some(s)
            },
            None => None,
        }
    }

    /// Records a subscription to `topic`, unless one is bound to it already:
    /// then the registry stays as it is and the handle is given back. Either
    /// way the topic is bound by exactly one entry afterwards.
    pub fn insert(&mut self, topic: &str, visibility: Locality, handle: H) -> (refused: Option<H>)
        ensures
            final(self).entries() == recorded(old(self).entries(), topic@, visibility, handle),
            distinct_topics(final(self).entries()),
            occurrences(final(self).entries(), topic@) == 1,
            refused == if subscribed(old(self).entries(), topic@) {
                Some(handle)
            } else {
                None
            },
    {
        let owned = topic.to_owned();
        let ghost before = self.entries();
        proof {
            use_type_invariant(&*self);
            lemma_recorded_once(before, topic@, visibility, handle);
        }
        if self.find(&owned).is_some() {
            return Some(handle);
        }
        let mut entries: Vec<Subscription<H>> = Vec::new();
        core::mem::swap(&mut entries, &mut self.entries);
        entries.push(Subscription { topic: owned, visibility, handle });
        assert(entries_of(entries@) =~= before.push((topic@, visibility, handle)));
        self.entries = entries;
        None
    }
}

} // verus!
