//! A homogeneous, growable, contiguous column of values of one type.
use vstd::prelude::*;

verus! {

/// The capacity a column with real storage moves to when it is full: a first
/// allocation holds eight slots, later ones grow by half (at least by one),
/// saturating at `usize::MAX`.
pub open spec fn grown_capacity(cap: nat) -> nat {
    if cap == 0 {
        8
    } else if cap / 2 == 0 {
        cap + 1
    } else if cap + cap / 2 > usize::MAX {
        usize::MAX as nat
    } else {
        cap + cap / 2
    }
}

/// Whether values of `T` occupy no memory.
pub open spec fn zero_sized<T>() -> bool {
    vstd::layout::size_of::<T>() == 0
}

/// A column of values of type `T`, kept contiguous in index order.
///
/// `capacity` is the number of slots the column has reserved; for a type that
/// occupies no memory it is `usize::MAX` and nothing is ever allocated.
#[derive(Debug)]
pub struct CompData<T> {
    data: Vec<T>,
    cap: usize,
    elem_size: usize,
    elem_align: usize,
}

impl<T> View for CompData<T> {
    type V = Seq<T>;

    /// The live elements, in slot order.
    closed spec fn view(&self) -> Seq<T> {
        self.data@
    }
}

impl<T> CompData<T> {
    /// The number of slots the column has room for before it must grow.
    pub closed spec fn spec_capacity(&self) -> nat {
        self.cap as nat
    }

    /// The column's internal invariant: the live elements fit in its capacity,
    /// and a zero-sized element type has unbounded capacity.
    pub closed spec fn wf(&self) -> bool {
        &&& self.data@.len() <= self.cap
        &&& self.elem_size as nat == vstd::layout::size_of::<T>()
        &&& self.elem_align as nat == vstd::layout::align_of::<T>()
        &&& (self.elem_size == 0 ==> self.cap == usize::MAX)
    }

    /// An empty column with no storage allocated.
    pub fn new() -> (r: Self)
        ensures
            r.wf(),
            r@ == Seq::<T>::empty(),
            r.spec_capacity() == (if zero_sized::<T>() { usize::MAX as nat } else { 0 }),
    {
        Self::with_capacity(0)
    }

    /// An empty column with exactly `cap` slots reserved; a zero-sized type
    /// reserves nothing and reports unbounded capacity.
    pub fn with_capacity(cap: usize) -> (r: Self)
        ensures
            r.wf(),
            r@ == Seq::<T>::empty(),
            r.spec_capacity() == (if zero_sized::<T>() { usize::MAX as nat } else { cap as nat }),
    {
        let elem_size = core::mem::size_of::<T>();
        let elem_align = core::mem::align_of::<T>();
        if elem_size == 0 {
            CompData { data: Vec::new(), cap: usize::MAX, elem_size, elem_align }
        } else if cap == 0 {
            CompData { data: Vec::new(), cap: 0, elem_size, elem_align }
        } else {
            CompData { data: Vec::with_capacity(cap), cap, elem_size, elem_align }
        }
    }

    /// The number of live elements.
    pub fn len(&self) -> (r: usize)
        ensures
            r == self@.len(),
    {
        self.data.len()
    }

    /// The number of slots reserved; `usize::MAX` for a zero-sized type.
    pub fn capacity(&self) -> (r: usize)
        ensures
            r == self.spec_capacity(),
    {
        self.cap
    }

    /// Moves to the next capacity of the growth policy, keeping every element.
    fn grow(&mut self)
        requires
            old(self).wf(),
            old(self).elem_size > 0,
            old(self).cap < usize::MAX,
        ensures
            final(self).wf(),
            final(self)@ == old(self)@,
            final(self).elem_size == old(self).elem_size,
            final(self).spec_capacity() == grown_capacity(old(self).spec_capacity()),
            final(self).spec_capacity() > old(self).spec_capacity(),
    {
        let old_cap = self.cap;
        let new_cap: usize = if old_cap == 0 {
            8
        } else if old_cap / 2 == 0 {
            old_cap + 1
        } else if old_cap > usize::MAX - old_cap / 2 {
            usize::MAX
        } else {
            old_cap + old_cap / 2
        };
        let additional = new_cap - self.data.len();
        self.data.reserve(additional);
        self.cap = new_cap;
    }

    /// How `push(val)` changes `self` into `after`: `val` follows the last
    /// live element, and a full column with real storage grows first.
    pub open spec fn push_post(self, after: Self, val: T) -> bool {
        &&& after.wf()
        &&& after@ == self@.push(val)
        &&& after.spec_capacity() == (if !zero_sized::<T>() && self@.len() == self.spec_capacity() {
            grown_capacity(self.spec_capacity())
        } else {
            self.spec_capacity()
        })
    }

    /// How `swap_remove(i)` changes `self` into `after`: the last live element
    /// takes slot `i`, and the column is one shorter.
    pub open spec fn swap_remove_post(self, after: Self, i: int) -> bool {
        &&& after.wf()
        &&& after@ == self@.update(i, self@.last()).drop_last()
        &&& after.spec_capacity() == self.spec_capacity()
    }

    /// Appends `val` after the last live element, growing first when full.
    pub fn push(&mut self, val: T)
        requires
            old(self).wf(),
            old(self)@.len() < usize::MAX,
        ensures
            old(self).push_post(*final(self), val),
    {
        if self.elem_size > 0 && self.data.len() == self.cap {
            self.grow();
        }
        self.data.push(val);
    }

    /// Puts `val` in slot `i` and hands back the value that was there.
    pub fn replace(&mut self, i: usize, val: T) -> (r: T)
        requires
            old(self).wf(),
            i < old(self)@.len(),
        ensures
            final(self).wf(),
            r == old(self)@[i as int],
            final(self)@ == old(self)@.update(i as int, val),
            final(self).spec_capacity() == old(self).spec_capacity(),
    {
        let mut v = val;
        core::mem::swap(&mut self.data[i], &mut v);
        v
    }

    /// Drops the element in slot `i` and moves the last live element into its
    /// place.
    pub fn swap_remove(&mut self, i: usize)
        requires
            old(self).wf(),
            i < old(self)@.len(),
        ensures
            old(self).swap_remove_post(*final(self), i as int),
    {
        self.data.swap_remove(i);
    }

    /// The live elements, in slot order.
    pub fn as_typed_slice(&self) -> (r: &[T])
        ensures
            r@ == self@,
    {
        self.data.as_slice()
    }

    /// The live elements, in slot order, for in-place mutation. A slice keeps
    /// its length, so the column stays well formed.
    pub fn as_typed_slice_mut(&mut self) -> (r: &mut [T])
        requires
            old(self).wf(),
        ensures
            r@ == old(self)@,
            final(self)@ == final(r)@,
            final(self).spec_capacity() == old(self).spec_capacity(),
            final(r)@.len() == r@.len() ==> final(self).wf(),
    {
        self.data.as_mut_slice()
    }

    /// The element in slot `i`, for in-place mutation.
    pub(crate) fn slot_mut(&mut self, i: usize) -> (r: &mut T)
        requires
            old(self).wf(),
            i < old(self)@.len(),
        ensures
            *r == old(self)@[i as int],
            final(self)@ == old(self)@.update(i as int, *final(r)),
            final(self).spec_capacity() == old(self).spec_capacity(),
            final(self).wf(),
    {
        &mut self.data[i]
    }

    /// Gives up the column, handing back its live elements in slot order.
    pub fn into_vec(self) -> (r: Vec<T>)
        ensures
            r@ == self@,
    {
        self.data
    }
}

/// Pushing values one after another onto an empty column leaves exactly those
/// values, in push order, however often the column grew on the way.
pub proof fn lemma_pushes_keep_order<T>(cols: Seq<CompData<T>>, vals: Seq<T>)
    requires
        cols.len() == vals.len() + 1,
        cols[0]@.len() == 0,
        forall|k: int| 0 <= k < vals.len() ==> #[trigger] cols[k].push_post(cols[k + 1], vals[k]),
    ensures
        cols.last()@ == vals,
    decreases vals.len(),
{
    if vals.len() > 0 {
        let k = vals.len() - 1;
        lemma_pushes_keep_order(cols.drop_last(), vals.drop_last());
        assert(cols[k].push_post(cols[k + 1], vals[k]));
        assert(cols.drop_last().last() == cols[k]);
        assert(vals =~= vals.drop_last().push(vals[k]));
    } else {
        assert(vals =~= Seq::<T>::empty());
    }
}

/// A column of a zero-sized type counts each push as exactly one more
/// element, and its capacity stays unbounded: it never allocates.
pub proof fn lemma_zero_sized_push<T>(before: CompData<T>, after: CompData<T>, val: T)
    requires
        zero_sized::<T>(),
        before.wf(),
        before.push_post(after, val),
    ensures
        after@.len() == before@.len() + 1,
        before.spec_capacity() == usize::MAX,
        after.spec_capacity() == usize::MAX,
{
}

/// A column of a zero-sized type counts each removal as exactly one element
/// less, and its capacity stays unbounded.
pub proof fn lemma_zero_sized_remove<T>(before: CompData<T>, after: CompData<T>, i: int)
    requires
        zero_sized::<T>(),
        before.wf(),
        0 <= i < before@.len(),
        before.swap_remove_post(after, i),
    ensures
        after@.len() == before@.len() - 1,
        before.spec_capacity() == usize::MAX,
        after.spec_capacity() == usize::MAX,
{
}

} // verus!
