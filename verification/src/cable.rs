//! Forward procedure calls between connected clients: the bundle type that
//! carries the assembled results of a broadcast operation, and the cable
//! that owns a homogeneous collection of children.

use vstd::prelude::*;

use crate::rpc::Connection;

verus! {

/// Plug in servers and forward procedure calls between them, the passive
/// version.  A cable owns clients and fans operations out across them;
/// its children are reached through the implementing type's own
/// accessors.
pub trait Cable: Connection {
    /// Type of clients owned by the cable.
    type Client;

    /// Add a connection to the cable.  If there is any error, the
    /// connection is not added.
    fn add_connection(&mut self, addr: Self::Client) -> Result<(), Self::Error>;
}

/// The results of a cabled procedure: one ordered sequence assembling all
/// the children's results.  A bundle is the accumulator capability the
/// broadcast strategy folds with: `new` is its neutral element and
/// `extend` its combine operation.
#[derive(Debug)]
pub struct Bundle<T> {
    items: Vec<T>,
}

impl<T> View for Bundle<T> {
    type V = Seq<T>;

    closed spec fn view(&self) -> Seq<T> {
        self.items@
    }
}

impl<T> Bundle<T> {
    /// Create an empty bundle: the neutral element of aggregation.
    pub fn new() -> (r: Self)
        ensures
            r@ =~= Seq::<T>::empty(),
    {
        Bundle { items: Vec::new() }
    }

    /// Create a bundle with a single value.
    pub fn from_single(item: T) -> (r: Self)
        ensures
            r@ =~= seq![item],
    {
        let mut items: Vec<T> = Vec::new();
        items.push(item);
        Bundle { items }
    }

    /// Create a bundle holding the given values in order.
    pub fn from_vec(items: Vec<T>) -> (r: Self)
        ensures
            r@ == items@,
    {
        Bundle { items }
    }

    /// The number of carried results.
    pub fn len(&self) -> (n: usize)
        ensures
            n == self@.len(),
    {
        self.items.len()
    }

    /// Read one carried result.
    pub fn get(&self, i: usize) -> (x: &T)
        requires
            i < self@.len(),
        ensures
            *x == self@[i as int],
    {
        &self.items[i]
    }

    /// Append one result.
    pub fn extend_one(&mut self, item: T)
        ensures
            final(self)@ == old(self)@.push(item),
    {
        self.items.push(item);
    }

    /// Combine: append every result of `other`, in order.
    pub fn extend(&mut self, other: Bundle<T>)
        ensures
            final(self)@ == old(self)@ + other@,
    {
        let mut o = other;
        self.items.append(&mut o.items);
    }

    /// Give up the bundle as a plain vector of its results.
    pub fn into_vec(self) -> (r: Vec<T>)
        ensures
            r@ == self@,
    {
        self.items
    }
}

/// The left-to-right fold of per-child results, starting from the
/// accumulator's neutral element: combining in collection order is
/// concatenation in collection order.
pub open spec fn fold_bundles<T>(parts: Seq<Seq<T>>) -> Seq<T>
    decreases parts.len(),
{
    if parts.len() == 0 {
        Seq::empty()
    } else {
        fold_bundles(parts.drop_last()) + parts.last()
    }
}

/// Broadcast aggregation: the aggregate of a collection of per-child
/// results equals folding each child's individual result left to right,
/// starting from the accumulator's neutral element; for an empty
/// collection the result is the neutral element.
#[verifier::loop_isolation(false)]
pub fn aggregate<T>(parts: Vec<Bundle<T>>) -> (r: Bundle<T>)
    ensures
        r@ == fold_bundles(parts@.map_values(|b: Bundle<T>| b@)),
{
    let n: usize = parts.len();
    let ghost all: Seq<Seq<T>> = parts@.map_values(|b: Bundle<T>| b@);
    proof {
        assert(all.len() == n);
    }
    let mut parts = parts;
    let mut res: Bundle<T> = Bundle::new();
    let mut i: usize = 0;
    while parts.len() > 0
        invariant
            all.len() <= usize::MAX,
            i + parts@.len() == all.len(),
            parts@.map_values(|b: Bundle<T>| b@) == all.skip(i as int),
            res@ == fold_bundles(all.take(i as int)),
        decreases parts.len(),
    {
        let ghost prev: Seq<Bundle<T>> = parts@;
        let part = parts.remove(0);
        proof {
            assert(part == prev[0]);
            assert(prev.map_values(|b: Bundle<T>| b@)[0] == part@);
            assert(all.skip(i as int)[0] == all[i as int]);
            assert(part@ == all[i as int]);
            assert(parts@ =~= prev.drop_first());
            assert forall|j: int|
                0 <= j < parts@.len() implies parts@.map_values(|b: Bundle<T>| b@)[j]
                == #[trigger] (all.skip(i + 1)[j]) by {
                assert(prev.map_values(|b: Bundle<T>| b@)[j + 1] == prev[j + 1]@);
                assert(parts@[j] == prev[j + 1]);
                assert(all.skip(i as int)[j + 1] == all[i + 1 + j]);
            }
            assert(parts@.map_values(|b: Bundle<T>| b@) =~= all.skip(i + 1));
        }
        res.extend(part);
        proof {
            assert(all.take(i + 1).drop_last() =~= all.take(i as int));
            assert(all.take(i + 1).last() == all[i as int]);
        }
        i = i + 1;
    }
    proof {
        assert(all.take(i as int) =~= all);
    }
    res
}

/// For an empty collection the broadcast aggregate is the neutral
/// element, and each further child's result is combined on the right, in
/// collection order.
pub proof fn lemma_broadcast_aggregation<T>(parts: Seq<Seq<T>>)
    ensures
        parts.len() == 0 ==> fold_bundles(parts) == Seq::<T>::empty(),
        parts.len() > 0 ==> fold_bundles(parts) == fold_bundles(parts.drop_last())
            + parts.last(),
{
}

/// A cable containing a list of clients of the same type.
#[derive(Debug)]
pub struct ArrayCable<T> {
    child: Vec<T>,
}

impl<T> View for ArrayCable<T> {
    type V = Seq<T>;

    closed spec fn view(&self) -> Seq<T> {
        self.child@
    }
}

impl<T> ArrayCable<T> {
    /// Create an empty cable.
    pub fn new() -> (r: Self)
        ensures
            r@ =~= Seq::<T>::empty(),
    {
        ArrayCable { child: Vec::new() }
    }

    /// The number of connected children.
    pub fn child_count(&self) -> (n: usize)
        ensures
            n == self@.len(),
    {
        self.child.len()
    }

    /// Read one child.
    pub fn child_at(&self, i: usize) -> (x: &T)
        requires
            i < self@.len(),
        ensures
            *x == self@[i as int],
    {
        &self.child[i]
    }

    /// Borrow one child for mutation.
    pub fn child_at_mut(&mut self, i: usize) -> (x: &mut T)
        requires
            i < old(self)@.len(),
        ensures
            *x == old(self)@[i as int],
            final(self)@ == old(self)@.update(i as int, *final(x)),
    {
        &mut self.child[i]
    }

    /// Add a connection: the child is appended at the end, earlier
    /// children unchanged, and this never fails.
    pub fn add_connection(&mut self, addr: T) -> (r: Result<(), ()>)
        ensures
            r is Ok,
            final(self)@ == old(self)@.push(addr),
    {
        self.child.push(addr);
        Ok(())
    }

    /// Disconnect the cable: this never fails, and the children are
    /// untouched.
    pub fn disconnect(&self) -> (r: Result<(), ()>)
        ensures
            r is Ok,
    {
        Ok(())
    }
}

impl<T> Connection for ArrayCable<T> {
    type Error = ();

    fn disconnect(&self) -> Result<(), Self::Error> {
        self.disconnect()
    }
}

impl<T> Cable for ArrayCable<T> {
    type Client = T;

    fn add_connection(&mut self, addr: Self::Client) -> Result<(), Self::Error> {
        self.add_connection(addr)
    }
}

} // verus!
