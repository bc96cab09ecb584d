//! The client registry: the one piece of state shared between the
//! notification loop and the subscriber transports.
//!
//! It maps each live subscriber id to the outbound channel of that
//! subscriber's WebSocket task. `broadcast` attempts one delivery per
//! registered subscriber; a refused enqueue (the receiving task is gone) is
//! reported in the result and never stops delivery to the rest. The caller
//! serializes access (one async-aware lock around the registry), so each
//! operation here is a plain sequential step.

use vstd::prelude::*;

verus! {

/// Outside type brought in for the subscriber channels: tokio's unbounded
/// mpsc sender. Verus treats its values as opaque handles.
#[verifier::external_type_specification]
#[verifier::external_body]
#[verifier::reject_recursive_types(T)]
pub struct ExUnboundedSender<T>(tokio::sync::mpsc::UnboundedSender<T>);

/// Outside type brought in for the wire frames: warp's WebSocket message.
#[verifier::external_type_specification]
#[verifier::external_body]
pub struct ExWsMessage(warp::ws::Message);

/// Outside type brought in because the forwarding task's channel carries
/// send results: warp's error.
#[verifier::external_type_specification]
#[verifier::external_body]
pub struct ExWarpError(warp::Error);

/// Outbound channel of one subscriber: what the WebSocket forwarding task
/// reads from.
pub type WsSender = tokio::sync::mpsc::UnboundedSender<Result<warp::ws::Message, warp::Error>>;

/// Relies on warp's `Message::text` to frame the payload and on tokio's
/// `UnboundedSender::send`: the enqueue never blocks, and it fails exactly
/// when the receiving half of the channel is closed or dropped.
#[verifier::external_body]
fn enqueue_text(sender: &WsSender, text: &str) -> bool {
    sender.send(Ok(warp::ws::Message::text(text))).is_ok()
}

/// No two entries carry the same subscriber id.
spec fn unique_keys(s: Seq<(u128, WsSender)>) -> bool {
    forall|i: int, j: int| 0 <= i < j < s.len() ==> s[i].0 != s[j].0
}

/// The map an entry sequence denotes; later entries would win, but the
/// registry keeps keys unique.
spec fn map_of(s: Seq<(u128, WsSender)>) -> Map<u128, WsSender>
    decreases s.len(),
{
    if s.len() == 0 {
        Map::empty()
    } else {
        map_of(s.drop_last()).insert(s.last().0, s.last().1)
    }
}

proof fn lemma_map_of_dom(s: Seq<(u128, WsSender)>)
    ensures
        forall|id: u128|
            map_of(s).dom().contains(id) <==> exists|i: int| 0 <= i < s.len() && s[i].0 == id,
    decreases s.len(),
{
    if s.len() > 0 {
        lemma_map_of_dom(s.drop_last());
        assert forall|id: u128| map_of(s).dom().contains(id) implies exists|i: int|
            0 <= i < s.len() && s[i].0 == id by {
            if id == s.last().0 {
                assert(s[s.len() - 1].0 == id);
            } else {
                assert(map_of(s) == map_of(s.drop_last()).insert(s.last().0, s.last().1));
                assert(map_of(s.drop_last()).dom().contains(id));
                let i = choose|i: int| 0 <= i < s.drop_last().len() && s.drop_last()[i].0 == id;
                assert(s[i] == s.drop_last()[i]);
                assert(0 <= i < s.len() && s[i].0 == id);
            }
        }
        assert forall|id: u128|
            exists|i: int| 0 <= i < s.len() && s[i].0 == id implies map_of(s).dom().contains(
            id,
        ) by {
            let i = choose|i: int| 0 <= i < s.len() && s[i].0 == id;
            if i < s.len() - 1 {
                assert(s.drop_last()[i].0 == id);
                assert(map_of(s.drop_last()).dom().contains(id));
            } else {
                assert(id == s.last().0);
            }
            assert(map_of(s) == map_of(s.drop_last()).insert(s.last().0, s.last().1));
        }
    }
}

proof fn lemma_map_of_absent(s: Seq<(u128, WsSender)>, id: u128)
    requires
        forall|i: int| 0 <= i < s.len() ==> s[i].0 != id,
    ensures
        !map_of(s).dom().contains(id),
        map_of(s).remove(id) == map_of(s),
    decreases s.len(),
{
    if s.len() > 0 {
        assert(forall|i: int| 0 <= i < s.drop_last().len() ==> s.drop_last()[i].0 != id);
        lemma_map_of_absent(s.drop_last(), id);
        assert(s.last().0 != id);
    }
    assert(map_of(s).remove(id) =~= map_of(s));
}

proof fn lemma_map_of_remove(s: Seq<(u128, WsSender)>, at: int)
    requires
        unique_keys(s),
        0 <= at < s.len(),
    ensures
        unique_keys(s.remove(at)),
        map_of(s.remove(at)) == map_of(s).remove(s[at].0),
    decreases s.len(),
{
    let id = s[at].0;
    assert(unique_keys(s.remove(at)));
    if at == s.len() - 1 {
        assert(s.remove(at) =~= s.drop_last());
        assert(forall|i: int| 0 <= i < s.drop_last().len() ==> s.drop_last()[i].0 != id);
        lemma_map_of_absent(s.drop_last(), id);
        assert(map_of(s).remove(id) =~= map_of(s.drop_last()));
    } else {
        assert(unique_keys(s.drop_last()));
        lemma_map_of_remove(s.drop_last(), at);
        assert(s.remove(at).drop_last() =~= s.drop_last().remove(at));
        assert(s.remove(at).last() == s.last());
        assert(map_of(s.remove(at)) == map_of(s.drop_last().remove(at)).insert(
            s.last().0,
            s.last().1,
        ));
        assert(s.last().0 != id);
        assert(map_of(s.drop_last()).remove(id).insert(s.last().0, s.last().1) =~= map_of(
            s.drop_last(),
        ).insert(s.last().0, s.last().1).remove(id));
    }
}

proof fn lemma_map_of_dom_len(s: Seq<(u128, WsSender)>)
    requires
        unique_keys(s),
    ensures
        map_of(s).dom().finite(),
        map_of(s).dom().len() == s.len(),
    decreases s.len(),
{
    if s.len() > 0 {
        assert(unique_keys(s.drop_last()));
        lemma_map_of_dom_len(s.drop_last());
        lemma_map_of_dom(s.drop_last());
        assert(forall|i: int| 0 <= i < s.drop_last().len() ==> s.drop_last()[i].0 != s.last().0);
        assert(!map_of(s.drop_last()).dom().contains(s.last().0));
        assert(map_of(s).dom() =~= map_of(s.drop_last()).dom().insert(s.last().0));
    }
}

/// The shared subscriber map: id to outbound channel, keys unique.
pub struct ClientRegistry {
    entries: Vec<(u128, WsSender)>,
}

impl View for ClientRegistry {
    type V = Map<u128, WsSender>;

    closed spec fn view(&self) -> Map<u128, WsSender> {
        map_of(self.entries@)
    }
}

impl ClientRegistry {
    #[verifier::type_invariant]
    spec fn wf(self) -> bool {
        unique_keys(self.entries@)
    }

    /// An empty registry: no subscriber registered.
    pub fn new() -> (r: ClientRegistry)
        ensures
            r@ == Map::<u128, WsSender>::empty(),
    {
        ClientRegistry { entries: Vec::new() }
    }

    /// Index of the entry holding `id`, if any.
    fn find_index(&self, id: u128) -> (r: Option<usize>)
        ensures
            match r {
                Some(at) => at < self.entries@.len() && self.entries@[at as int].0 == id,
                None => forall|i: int| 0 <= i < self.entries@.len() ==> self.entries@[i].0 != id,
            },
    {
        let mut i: usize = 0;
        while i < self.entries.len()
            invariant
                i <= self.entries@.len(),
                forall|j: int| 0 <= j < i ==> self.entries@[j].0 != id,
            decreases self.entries@.len() - i,
        {
            if self.entries[i].0 == id {
                return Some(i);
            }
            i = i + 1;
        }
        None
    }

    /// Inserts or replaces the entry for `subscriber_id`; registering the
    /// same id again just swaps its channel.
    pub fn register(&mut self, subscriber_id: u128, sender: WsSender)
        ensures
            final(self)@ == old(self)@.insert(subscriber_id, sender),
    {
        proof {
            use_type_invariant(&*self);
        }
        let ghost initial = self.entries@;
        let found = self.find_index(subscriber_id);
        let mut entries: Vec<(u128, WsSender)> = Vec::new();
        std::mem::swap(&mut entries, &mut self.entries);
        match found {
            Some(at) => {
                proof {
                    lemma_map_of_remove(initial, at as int);
                }
                let _ = entries.remove(at);
                let ghost trimmed = entries@;
                entries.push((subscriber_id, sender));
                proof {
                    assert(entries@.drop_last() =~= trimmed);
                    assert(map_of(initial).remove(subscriber_id).insert(subscriber_id, sender)
                        =~= map_of(initial).insert(subscriber_id, sender));
                    assert(forall|i: int, j: int|
                        0 <= i < j < trimmed.len() ==> trimmed[i].0 != trimmed[j].0);
                    assert(forall|i: int| 0 <= i < trimmed.len() ==> trimmed[i].0 != subscriber_id);
                }
            },
            None => {
                entries.push((subscriber_id, sender));
                proof {
                    assert(entries@.drop_last() =~= initial);
                }
            },
        }
        self.entries = entries;
    }

    /// Removes the entry for `subscriber_id`; a no-op when the id is absent,
    /// so disconnect races stay harmless.
    pub fn unregister(&mut self, subscriber_id: u128)
        ensures
            final(self)@ == old(self)@.remove(subscriber_id),
    {
        proof {
            use_type_invariant(&*self);
        }
        let ghost initial = self.entries@;
        let found = self.find_index(subscriber_id);
        let mut entries: Vec<(u128, WsSender)> = Vec::new();
        std::mem::swap(&mut entries, &mut self.entries);
        match found {
            Some(at) => {
                proof {
                    lemma_map_of_remove(initial, at as int);
                }
                let _ = entries.remove(at);
            },
            None => {
                proof {
                    lemma_map_of_absent(initial, subscriber_id);
                }
            },
        }
        self.entries = entries;
    }

    /// Whether an id is currently registered.
    pub fn contains_subscriber(&self, subscriber_id: u128) -> (r: bool)
        ensures
            r == self@.dom().contains(subscriber_id),
    {
        proof {
            lemma_map_of_dom(self.entries@);
        }
        self.find_index(subscriber_id).is_some()
    }

    /// Number of registered subscribers.
    pub fn subscriber_count(&self) -> (r: usize)
        ensures
            r == self@.dom().len(),
    {
        proof {
            use_type_invariant(&*self);
            lemma_map_of_dom_len(self.entries@);
        }
        self.entries.len()
    }

    /// Delivers `text` to every subscriber registered at call time: one
    /// enqueue attempt per registered id, no id attempted twice, and no
    /// other id attempted. Each attempt's outcome is reported next to its
    /// id; a refused enqueue leaves every other delivery untouched, and
    /// never removes the subscriber (the transport layer drives removal).
    pub fn broadcast(&self, text: &str) -> (r: Vec<(u128, bool)>)
        ensures
            r@.len() == self@.dom().len(),
            forall|k: int| 0 <= k < r@.len() ==> self@.dom().contains(#[trigger] r@[k].0),
            forall|k1: int, k2: int| 0 <= k1 < k2 < r@.len() ==> r@[k1].0 != r@[k2].0,
            forall|id: u128|
                self@.dom().contains(id) ==> exists|k: int| 0 <= k < r@.len() && r@[k].0 == id,
    {
        proof {
            use_type_invariant(&*self);
            lemma_map_of_dom(self.entries@);
            lemma_map_of_dom_len(self.entries@);
        }
        let mut r: Vec<(u128, bool)> = Vec::new();
        let mut i: usize = 0;
        while i < self.entries.len()
            invariant
                i <= self.entries@.len(),
                r@.len() == i,
                forall|k: int| 0 <= k < i ==> r@[k].0 == self.entries@[k].0,
            decreases self.entries@.len() - i,
        {
            let subscriber_id = self.entries[i].0;
            let accepted = enqueue_text(&self.entries[i].1, text);
            r.push((subscriber_id, accepted));
            i = i + 1;
        }
        proof {
            assert forall|id: u128| self@.dom().contains(id) implies exists|k: int|
                0 <= k < r@.len() && r@[k].0 == id by {
                let i = choose|i: int| 0 <= i < self.entries@.len() && self.entries@[i].0 == id;
                assert(r@[i].0 == id);
            }
        }
        r
    }
}

/// Law: `unregister` followed by `broadcast` never delivers to the
/// unregistered id — it leaves the registry's domain, and a concurrent
/// registration of any other id cannot bring it back.
pub proof fn lemma_unregistered_stays_out(
    m: Map<u128, WsSender>,
    id: u128,
    other: u128,
    sender: WsSender,
)
    requires
        other != id,
    ensures
        !m.remove(id).dom().contains(id),
        !m.remove(id).insert(other, sender).dom().contains(id),
{
}

} // verus!
