use vstd::prelude::*;
use vstd::slice::slice_to_vec;
use crate::path::{components, path_components, components_equal, same_path};

verus! {

/// Some path on `subs` names the same location as `path` (component-wise, as
/// `std::path::Path` compares).
pub open spec fn is_subscribed(subs: Seq<Seq<u8>>, path: Seq<u8>) -> bool {
    exists|i: int| 0 <= i < subs.len() && same_path(#[trigger] subs[i], path)
}

/// No two paths on `subs` name the same location.
pub open spec fn distinct_paths(subs: Seq<Seq<u8>>) -> bool {
    forall|i: int, j: int|
        0 <= i < subs.len() && 0 <= j < subs.len() && i != j ==> !same_path(
            #[trigger] subs[i],
            #[trigger] subs[j],
        )
}

/// The list `subs` after `path` subscribed: unchanged when a path naming the same
/// location is already on it (the path written first is kept), otherwise `path` is
/// added at the end.
pub open spec fn subscribe(subs: Seq<Seq<u8>>, path: Seq<u8>) -> Seq<Seq<u8>> {
    if is_subscribed(subs, path) {
        subs
    } else {
        subs.push(path)
    }
}

/// Byte-wise equality of two byte strings.
pub fn bytes_equal(a: &[u8], b: &[u8]) -> (equal: bool)
    ensures
        equal == (a@ == b@),
{
    if a.len() != b.len() {
        return false;
    }
    let mut i: usize = 0;
    while i < a.len()
        invariant
            a.len() == b.len(),
            i <= a.len(),
            forall|j: int| 0 <= j < i ==> a@[j] == b@[j],
        decreases a.len() - i,
    {
        if a[i] != b[i] {
            return false;
        }
        i = i + 1;
    }
    assert(a@ =~= b@);
    true
}

/// The socket paths of the clients subscribed to one kind of event, each location
/// at most once, in the order they subscribed.
pub struct SubscriberList {
    paths: Vec<Vec<u8>>,
}

impl View for SubscriberList {
    type V = Seq<Seq<u8>>;

    closed spec fn view(&self) -> Seq<Seq<u8>> {
        self.paths@.map_values(|p: Vec<u8>| p@)
    }
}

impl SubscriberList {
    /// No location is subscribed twice.
    pub open spec fn wf(&self) -> bool {
        distinct_paths(self@)
    }

    /// An empty list.
    pub fn new() -> (list: Self)
        ensures
            list@ == Seq::<Seq<u8>>::empty(),
            list.wf(),
    {
        let list = SubscriberList { paths: Vec::new() };
        assert(list@ =~= Seq::<Seq<u8>>::empty());
        list
    }

    /// Number of subscribed paths.
    pub fn len(&self) -> (n: usize)
        ensures
            n == self@.len(),
    {
        self.paths.len()
    }

    /// Whether nobody is subscribed.
    pub fn is_empty(&self) -> (empty: bool)
        ensures
            empty == (self@.len() == 0),
    {
        self.paths.len() == 0
    }

    /// Whether a path naming the same location as `path` is subscribed.
    pub fn contains(&self, path: &[u8]) -> (found: bool)
        ensures
            found == is_subscribed(self@, path@),
    {
        let key = path_components(path);
        let mut i: usize = 0;
        while i < self.paths.len()
            invariant
                i <= self.paths@.len(),
                crate::path::byte_seqs(key@) == components(path@),
                forall|j: int| 0 <= j < i ==> !same_path(#[trigger] self@[j], path@),
            decreases self.paths@.len() - i,
        {
            let stored = path_components(self.paths[i].as_slice());
            assert(self@[i as int] == self.paths@[i as int]@);
            if components_equal(&stored, &key) {
                assert(same_path(self@[i as int], path@));
                return true;
            }
            i = i + 1;
        }
        false
    }

    /// Subscribes `path`; returns whether it was not subscribed before.
    pub fn insert(&mut self, path: &[u8]) -> (added: bool)
        requires
            old(self).wf(),
        ensures
            final(self).wf(),
            final(self)@ == subscribe(old(self)@, path@),
            added == !is_subscribed(old(self)@, path@),
    {
        if self.contains(path) {
            false
        } else {
            let ghost before = self@;
            self.paths.push(slice_to_vec(path));
            assert(self@ =~= before.push(path@));
            proof {
                lemma_subscribe_keeps_distinct(before, path@);
            }
            true
        }
    }

    /// A copy of the subscribed paths, in order.
    pub fn to_vec(&self) -> (paths: Vec<Vec<u8>>)
        ensures
            paths@.map_values(|p: Vec<u8>| p@) == self@,
    {
        let mut out: Vec<Vec<u8>> = Vec::new();
        let mut i: usize = 0;
        while i < self.paths.len()
            invariant
                i <= self.paths@.len(),
                out@.len() == i,
                forall|j: int| 0 <= j < i ==> out@[j]@ == self@[j],
            decreases self.paths@.len() - i,
        {
            out.push(slice_to_vec(self.paths[i].as_slice()));
            i = i + 1;
        }
        assert(out@.map_values(|p: Vec<u8>| p@) =~= self@);
        out
    }
}

/// Subscribing keeps the list free of paths that name the same location.
pub proof fn lemma_subscribe_keeps_distinct(subs: Seq<Seq<u8>>, path: Seq<u8>)
    requires
        distinct_paths(subs),
    ensures
        distinct_paths(subscribe(subs, path)),
{
    if !is_subscribed(subs, path) {
        let next = subs.push(path);
        assert forall|i: int, j: int| 0 <= i < next.len() && 0 <= j < next.len() && i != j
            implies !same_path(#[trigger] next[i], #[trigger] next[j]) by {
            if i == subs.len() as int {
                assert(subs[j] == next[j]);
                if same_path(next[i], next[j]) {
                    assert(same_path(subs[j], path));
                }
            } else if j == subs.len() as int {
                assert(subs[i] == next[i]);
                if same_path(next[i], next[j]) {
                    assert(same_path(subs[i], path));
                }
            } else {
                assert(subs[i] == next[i] && subs[j] == next[j]);
            }
        }
    }
}

/// Subscribing twice is the same as subscribing once, and afterwards the path's
/// location is subscribed.
pub proof fn lemma_subscribe_idempotent(subs: Seq<Seq<u8>>, path: Seq<u8>)
    ensures
        subscribe(subscribe(subs, path), path) == subscribe(subs, path),
        is_subscribed(subscribe(subs, path), path),
{
    if !is_subscribed(subs, path) {
        let next = subs.push(path);
        assert(next[subs.len() as int] == path);
        assert(same_path(next[subs.len() as int], path));
    }
}

/// Subscribing never drops anybody: every path on the list before is on it after.
pub proof fn lemma_subscribe_keeps_members(subs: Seq<Seq<u8>>, path: Seq<u8>, other: Seq<u8>)
    requires
        subs.contains(other),
    ensures
        subscribe(subs, path).contains(other),
{
    if !is_subscribed(subs, path) {
        let i = choose|i: int| 0 <= i < subs.len() && subs[i] == other;
        assert(subs.push(path)[i] == other);
    }
}

} // verus!
