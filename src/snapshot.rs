use crate::resp::Response;
use crate::time::Timestamp;
use vstd::prelude::*;

verus! {

/// A normalised record whose equality is structural: two records are the
/// same exactly when their views, which hold every field, are equal.
pub trait Entity: View + Sized {
    fn same(&self, other: &Self) -> (r: bool)
        ensures
            r == (self@ == other@),
    ;
}

/// The views of a sequence of records, in order.
pub open spec fn views<T: View>(s: Seq<T>) -> Seq<T::V> {
    s.map_values(|e: T| e@)
}

/// What a swap of `fetched` into a cell holding `held` leaves there, and
/// whether it changed anything.
pub open spec fn swapped<V>(held: Seq<V>, fetched: Seq<V>) -> (Seq<V>, bool) {
    (fetched, fetched != held)
}

/// Order-sensitive, field-by-field equality of two collections.
pub fn same_items<T: Entity>(a: &Vec<T>, b: &Vec<T>) -> (r: bool)
    ensures
        r == (views(a@) == views(b@)),
{
    if a.len() != b.len() {
        assert(views(a@).len() != views(b@).len());
        return false;
    }
    let mut i: usize = 0;
    while i < a.len()
        invariant
            a.len() == b.len(),
            0 <= i <= a.len(),
            forall|k: int| 0 <= k < i ==> a@[k]@ == b@[k]@,
        decreases a.len() - i,
    {
        if !a[i].same(&b[i]) {
            assert(views(a@)[i as int] != views(b@)[i as int]);
            return false;
        }
        i += 1;
    }
    assert(views(a@) =~= views(b@));
    true
}

/// The current data of one source and the time it last changed.
///
/// Changes only through `compare_and_swap`, which replaces the data and
/// its timestamp together, and only when the new data differs.
pub struct SnapshotCell<T> {
    current: Response<Vec<T>>,
}

impl<T: Entity> SnapshotCell<T> {
    /// The stored collection, as views.
    pub closed spec fn data(&self) -> Seq<T::V> {
        views(self.current.data@)
    }

    /// When the stored collection last changed.
    pub closed spec fn last_updated(&self) -> Timestamp {
        self.current.last_updated
    }

    /// An empty cell stamped with the given time.
    pub fn empty_at(at: Timestamp) -> (c: SnapshotCell<T>)
        ensures
            c.data() == Seq::<T::V>::empty(),
            c.last_updated() == at,
    {
        let c = SnapshotCell { current: Response { last_updated: at, data: Vec::new() } };
        assert(c.data() =~= Seq::<T::V>::empty());
        c
    }

    /// The stored collection and its timestamp, for a reader to copy.
    pub fn read(&self) -> (r: &Response<Vec<T>>)
        ensures
            views(r.data@) == self.data(),
            r.last_updated == self.last_updated(),
    {
        &self.current
    }

    /// Replaces the data, stamped `at` (the current time, which the caller
    /// reads), when `new_data` differs from it; otherwise leaves the cell
    /// untouched. Returns whether it changed.
    pub fn compare_and_swap(&mut self, new_data: Vec<T>, at: Timestamp) -> (changed: bool)
        ensures
            (final(self).data(), changed) == swapped(old(self).data(), views(new_data@)),
            changed ==> final(self).last_updated() == at,
            !changed ==> *final(self) == *old(self),
            at != old(self).last_updated() ==> (changed <==> final(self).last_updated()
                != old(self).last_updated()),
    {
        if same_items(&self.current.data, &new_data) {
            false
        } else {
            self.current = Response { last_updated: at, data: new_data };
            true
        }
    }
}

} // verus!
