//! Append-only key/value store of one attention layer.

use vstd::prelude::*;

verus! {

/// Keys and values of one attention layer, one entry per position seen so far.
///
/// Keys and values always cover the same number of positions.
#[derive(Debug)]
pub struct KVCache<T> {
    keys: Vec<T>,
    values: Vec<T>,
}

impl<T> KVCache<T> {
    /// The keys held, oldest position first.
    pub closed spec fn key_seq(&self) -> Seq<T> {
        self.keys@
    }

    /// The values held, oldest position first.
    pub closed spec fn value_seq(&self) -> Seq<T> {
        self.values@
    }

    /// Keys and values cover the same positions.
    pub open spec fn wf(&self) -> bool {
        self.key_seq().len() == self.value_seq().len()
    }

    /// Number of positions held.
    pub open spec fn len_spec(&self) -> nat {
        self.key_seq().len()
    }

    /// An empty cache.
    pub fn new() -> (r: Self)
        ensures
            r.wf(),
            r.key_seq() == Seq::<T>::empty(),
            r.value_seq() == Seq::<T>::empty(),
    {
        KVCache { keys: Vec::new(), values: Vec::new() }
    }

    /// Number of positions held; 0 when empty.
    pub fn seq_len(&self) -> (r: usize)
        ensures
            r == self.len_spec(),
    {
        self.keys.len()
    }

    /// Appends the new positions' keys and values after those already held.
    pub fn update(&mut self, new_keys: Vec<T>, new_values: Vec<T>)
        requires
            old(self).wf(),
            new_keys@.len() == new_values@.len(),
        ensures
            final(self).wf(),
            final(self).key_seq() == old(self).key_seq() + new_keys@,
            final(self).value_seq() == old(self).value_seq() + new_values@,
    {
        let mut new_keys = new_keys;
        let mut new_values = new_values;
        self.keys.append(&mut new_keys);
        self.values.append(&mut new_values);
    }

    /// Empties the cache.
    pub fn clear(&mut self)
        ensures
            final(self).wf(),
            final(self).key_seq() == Seq::<T>::empty(),
            final(self).value_seq() == Seq::<T>::empty(),
    {
        self.keys.clear();
        self.values.clear();
    }

    /// All keys held, oldest position first.
    pub fn keys(&self) -> (r: &[T])
        ensures
            r@ == self.key_seq(),
    {
        self.keys.as_slice()
    }

    /// All values held, oldest position first.
    pub fn values(&self) -> (r: &[T])
        ensures
            r@ == self.value_seq(),
    {
        self.values.as_slice()
    }
}

impl<T> Default for KVCache<T> {
    fn default() -> (r: Self)
        ensures
            r.wf(),
            r.key_seq() == Seq::<T>::empty(),
            r.value_seq() == Seq::<T>::empty(),
    {
        KVCache::new()
    }
}

/// Empties the cache of every layer.
pub fn reset_all<T>(caches: &mut Vec<KVCache<T>>)
    ensures
        final(caches)@.len() == old(caches)@.len(),
        forall|i: int|
            0 <= i < final(caches)@.len() ==> (#[trigger] final(caches)@[i]).wf()
                && final(caches)@[i].key_seq() == Seq::<T>::empty() && final(caches)@[i].value_seq()
                == Seq::<T>::empty(),
{
    let n = caches.len();
    let mut i: usize = 0;
    while i < n
        invariant
            i <= n,
            caches@.len() == n,
            forall|j: int|
                0 <= j < i ==> (#[trigger] caches@[j]).wf() && caches@[j].key_seq() == Seq::<
                    T,
                >::empty() && caches@[j].value_seq() == Seq::<T>::empty(),
        decreases n - i,
    {
        caches.set(i, KVCache::new());
        i = i + 1;
    }
}

/// The number of positions cached, read from the first layer; 0 when there
/// are no layers.
pub fn cached_len<T>(caches: &[KVCache<T>]) -> (r: usize)
    ensures
        caches@.len() == 0 ==> r == 0,
        caches@.len() > 0 ==> r == caches@[0].len_spec(),
{
    if caches.len() == 0 {
        0
    } else {
        caches[0].seq_len()
    }
}

/// What a cache holding `held` holds after one `update` per block of `updates`,
/// in order.
pub open spec fn after_updates<T>(held: Seq<T>, updates: Seq<Seq<T>>) -> Seq<T>
    decreases updates.len(),
{
    if updates.len() == 0 {
        held
    } else {
        after_updates(held, updates.drop_last()) + updates.last()
    }
}

/// A cache filled with a prefix of `P` positions that then takes `N` generation
/// steps of one position each holds `P + N` positions.
pub proof fn lemma_len_after_steps<T>(prefix: Seq<T>, steps: Seq<Seq<T>>)
    requires
        forall|i: int| 0 <= i < steps.len() ==> (#[trigger] steps[i]).len() == 1,
    ensures
        after_updates(prefix, steps).len() == prefix.len() + steps.len(),
    decreases steps.len(),
{
    if steps.len() > 0 {
        let earlier = steps.drop_last();
        assert forall|i: int| 0 <= i < earlier.len() implies (#[trigger] earlier[i]).len() == 1 by {
            assert(earlier[i] == steps[i]);
        }
        lemma_len_after_steps(prefix, earlier);
    }
}

} // verus!
