use vstd::prelude::*;
use vstd::string::to_string_from_display_ensures;
use vstd::string::StringExecFns;

verus! {

/// A fixed-capacity sequence of copy-type elements that lives entirely in
/// place: an array of `C` slots and the number of slots in use.
///
/// The mathematical model of an `SVec` is the `Seq` of its first `len`
/// elements; the slots beyond that are not part of its value.
#[derive(Copy, Debug)]
pub struct SVec<const C: usize, T: Copy + Default> {
    array: [T; C],
    len: usize,
}

impl<const C: usize, T: Copy + Default> Clone for SVec<C, T> {
    fn clone(&self) -> (r: Self)
        ensures
            r == *self,
    {
        *self
    }
}

impl<const C: usize, T: Copy + Default> core::ops::Deref for SVec<C, T> {
    type Target = [T];

    fn deref(&self) -> (r: &[T])
        ensures
            r@ == self@,
    {
        proof {
            use_type_invariant(self);
        }
        vstd::slice::slice_subrange(self.array.as_slice(), 0, self.len)
    }
}

impl<const C: usize, T: Copy + Default> View for SVec<C, T> {
    type V = Seq<T>;

    closed spec fn view(&self) -> Seq<T> {
        self.array@.take(self.len as int)
    }
}

impl<const C: usize, T: Copy + Default> SVec<C, T> {
    #[verifier::type_invariant]
    closed spec fn inv(&self) -> bool {
        self.len <= C
    }

    /// An empty sequence.
    pub fn new() -> (r: Self)
        ensures
            r@ == Seq::<T>::empty(),
    {
        let r = SVec { array: [T::default(); C], len: 0 };
        assert(r@ =~= Seq::<T>::empty());
        r
    }

    /// The first `len` elements of `array`; `len` must not exceed the
    /// capacity.
    pub fn value(array: [T; C], len: usize) -> (r: Self)
        requires
            len <= C,
        ensures
            r@ == array@.take(len as int),
    {
        SVec { array: array, len: len }
    }

    /// Number of elements held.
    pub fn len(&self) -> (r: usize)
        ensures
            r == self@.len(),
            r <= C,
    {
        proof {
            use_type_invariant(self);
        }
        self.len
    }

    /// Number of elements that can be held at most.
    pub fn capacity(&self) -> (r: usize)
        ensures
            r == C,
            self@.len() <= r,
    {
        proof {
            use_type_invariant(self);
        }
        C
    }

    /// Whether a sequence with the elements `contents` has room for one
    /// more.
    pub open spec fn has_room(contents: Seq<T>) -> bool {
        contents.len() < C
    }

    /// What pushing `values` one after another onto the empty sequence
    /// gives.
    pub open spec fn pushed_all(values: Seq<T>) -> Seq<T>
        decreases values.len(),
    {
        if values.len() == 0 {
            Seq::empty()
        } else {
            Self::pushed_all(values.drop_last()).push(values.last())
        }
    }

    /// Pushing elements one after another onto the empty sequence gives
    /// those elements in the order in which they were pushed.
    pub proof fn lemma_pushed_all(values: Seq<T>)
        ensures
            Self::pushed_all(values) == values,
        decreases values.len(),
    {
        if values.len() > 0 {
            Self::lemma_pushed_all(values.drop_last());
            assert(values.drop_last().push(values.last()) =~= values);
        }
    }

    /// As many elements as the capacity can be pushed onto the empty
    /// sequence: there is room before each of these pushes, the length is
    /// then the capacity, and there is no room for another.
    pub proof fn lemma_push_to_capacity(values: Seq<T>)
        requires
            values.len() == C,
        ensures
            forall|k: int|
                0 <= k < C ==> Self::has_room(Self::pushed_all(#[trigger] values.take(k))),
            Self::pushed_all(values).len() == C,
            !Self::has_room(Self::pushed_all(values)),
    {
        Self::lemma_pushed_all(values);
        assert forall|k: int| 0 <= k < C implies Self::has_room(
            Self::pushed_all(#[trigger] values.take(k)),
        ) by {
            Self::lemma_pushed_all(values.take(k));
        }
    }

    /// A push can always be undone by a pop: after pushing `value` the
    /// sequence is not empty, its last element is `value`, and without
    /// that element it is what it was. On the empty sequence this leaves
    /// length 0.
    pub proof fn lemma_push_then_pop(contents: Seq<T>, value: T)
        ensures
            contents.push(value).len() > 0,
            contents.push(value).last() == value,
            contents.push(value).drop_last() == contents,
            contents.len() == 0 ==> contents.push(value).drop_last().len() == 0,
    {
        assert(contents.push(value).drop_last() =~= contents);
    }

    /// Appends `value`. The sequence must not be full.
    pub fn push(&mut self, value: T) -> (r: &mut SVec<C, T>)
        requires
            Self::has_room(old(self)@),
        ensures
            r@ == old(self)@.push(value),
            *final(self) == *final(r),
    {
        proof {
            use_type_invariant(&*self);
        }
        self.len += 1;
        self.array[self.len - 1] = value;
        assert(self@ =~= old(self)@.push(value));
        self
    }

    /// Removes the last element and returns it. The sequence must not be
    /// empty.
    pub fn pop(&mut self) -> (r: T)
        requires
            old(self)@.len() > 0,
        ensures
            r == old(self)@.last(),
            final(self)@ == old(self)@.drop_last(),
    {
        proof {
            use_type_invariant(&*self);
        }
        let elm = self.array[self.len - 1];
        self.len -= 1;
        assert(self@ =~= old(self)@.drop_last());
        elm
    }

    /// The element at `index`, or `None` when `index` is not below the
    /// length.
    pub fn get(&self, index: usize) -> (r: Option<T>)
        ensures
            r == (if index < self@.len() {
                Some(self@[index as int])
            } else {
                None
            }),
    {
        proof {
            use_type_invariant(self);
        }
        if index < self.len {
            Some(self.array[index])
        } else {
            None
        }
    }

    /// Sets the length to `len`, which must not exceed the capacity. The
    /// elements that stay are unchanged; each newly exposed slot holds a
    /// default value of `T`.
    pub fn resize(&mut self, len: usize) -> (r: &mut SVec<C, T>)
        requires
            len <= C,
        ensures
            *final(self) == *final(r),
            r@.len() == len,
            forall|i: int| 0 <= i < len && i < old(self)@.len() ==> r@[i] == old(self)@[i],
            forall|i: int|
                old(self)@.len() <= i < len ==> call_ensures(T::default, (), #[trigger] r@[i]),
    {
        proof {
            use_type_invariant(&*self);
        }
        let old_len = self.len;
        let mut i: usize = old_len;
        while i < len
            invariant
                old_len <= C,
                len <= C,
                old_len <= i,
                old_len < len ==> i <= len,
                self.len == old_len,
                forall|k: int| 0 <= k < old_len ==> self.array@[k] == old(self).array@[k],
                forall|k: int|
                    old_len <= k < i ==> call_ensures(T::default, (), #[trigger] self.array@[k]),
            decreases len - i,
        {
            self.array[i] = T::default();
            i += 1;
        }
        self.len = len;
        self
    }

    /// The same elements in a sequence of capacity `D`, which must be able
    /// to hold them all.
    pub fn resize_buff<const D: usize>(self) -> (r: SVec<D, T>)
        requires
            self@.len() <= D,
        ensures
            r@ == self@,
    {
        proof {
            use_type_invariant(&self);
        }
        let mut new_svec: SVec<D, T> = SVec::new();
        let mut i: usize = 0;
        while i < self.len
            invariant
                i <= self.len <= D,
                self.len <= C,
                new_svec@ == self@.take(i as int),
            decreases self.len - i,
        {
            new_svec.push(self.array[i]);
            assert(self@.take(i + 1) =~= self@.take(i as int).push(self.array@[i as int]));
            i += 1;
        }
        assert(self@.take(self.len as int) =~= self@);
        new_svec
    }

    /// An iterator that yields the elements once each, first to last.
    pub fn into_iter(self) -> (r: SVecIterator<C, T>)
        ensures
            r@ == self@,
    {
        SVecIterator::new(self)
    }

    /// A sequence that holds the elements of `value`, which must fit.
    pub fn from_slice(value: &[T]) -> (r: SVec<C, T>)
        requires
            value@.len() <= C,
        ensures
            r@ == value@,
    {
        let mut new_svec: SVec<C, T> = SVec::new();
        let mut i: usize = 0;
        while i < value.len()
            invariant
                i <= value@.len() <= C,
                new_svec@ == value@.take(i as int),
            decreases value@.len() - i,
        {
            new_svec.push(value[i]);
            assert(value@.take(i + 1) =~= value@.take(i as int).push(value@[i as int]));
            i += 1;
        }
        assert(value@.take(value@.len() as int) =~= value@);
        new_svec
    }
}

/// The items of `parts` with `", "` between them.
pub open spec fn joined(parts: Seq<Seq<char>>) -> Seq<char>
    decreases parts.len(),
{
    if parts.len() == 0 {
        Seq::empty()
    } else if parts.len() == 1 {
        parts[0]
    } else {
        joined(parts.drop_last()) + ", "@ + parts.last()
    }
}

impl<const C: usize, T: Copy + Default + core::fmt::Display> SVec<C, T> {
    /// The elements as text: each element as it displays itself, with
    /// `", "` between them and square brackets around the whole.
    pub fn to_string(&self) -> (r: String)
        ensures
            exists|parts: Seq<String>|
                {
                    &&& parts.len() == self@.len()
                    &&& forall|i: int|
                        0 <= i < parts.len() ==> to_string_from_display_ensures::<T>(
                            &self@[i],
                            #[trigger] parts[i],
                        )
                    &&& r@ == "["@ + joined(parts.map_values(|p: String| p@)) + "]"@
                },
    {
        proof {
            use_type_invariant(self);
        }
        let mut out = String::new();
        out.append("[");
        let ghost mut parts: Seq<String> = Seq::empty();
        let mut i: usize = 0;
        while i < self.len
            invariant
                i <= self.len <= C,
                parts.len() == i,
                forall|k: int|
                    0 <= k < i ==> to_string_from_display_ensures::<T>(
                        &self@[k],
                        #[trigger] parts[k],
                    ),
                out@ == "["@ + joined(parts.map_values(|p: String| p@)),
            decreases self.len - i,
        {
            if i != 0 {
                out.append(", ");
            }
            let part = self.array[i].to_string();
            out.append(part.as_str());
            proof {
                let before = parts.map_values(|p: String| p@);
                parts = parts.push(part);
                let after = parts.map_values(|p: String| p@);
                assert(after.drop_last() =~= before);
                assert(after.last() == part@);
                if i == 0 {
                    assert(before =~= Seq::<Seq<char>>::empty());
                }
                assert(out@ =~= "["@ + joined(after));
            }
            i += 1;
        }
        out.append("]");
        out
    }
}

/// Forward iterator over an `SVec` taken by value. Its model is the `Seq`
/// of the elements still to be yielded.
pub struct SVecIterator<const C: usize, T: Copy + Default> {
    svec: SVec<C, T>,
    index: usize,
}

impl<const C: usize, T: Copy + Default> View for SVecIterator<C, T> {
    type V = Seq<T>;

    closed spec fn view(&self) -> Seq<T> {
        self.svec@.skip(self.index as int)
    }
}

impl<const C: usize, T: Copy + Default> SVecIterator<C, T> {
    #[verifier::type_invariant]
    closed spec fn inv(&self) -> bool {
        self.index <= self.svec.len <= C
    }

    /// An iterator positioned before the first element of `svec`.
    pub fn new(svec: SVec<C, T>) -> (r: Self)
        ensures
            r@ == svec@,
    {
        proof {
            use_type_invariant(&svec);
        }
        let r = SVecIterator { svec: svec, index: 0 };
        assert(r@ =~= svec@);
        r
    }

    /// Yields the next element, or `None` once all have been yielded.
    pub fn next(&mut self) -> (r: Option<T>)
        ensures
            old(self)@.len() == 0 ==> r.is_none() && final(self)@ == old(self)@,
            old(self)@.len() > 0 ==> r == Some(old(self)@.first()) && final(self)@ == old(
                self,
            )@.drop_first(),
    {
        proof {
            use_type_invariant(&*self);
        }
        if self.index == self.svec.len {
            None
        } else {
            self.index += 1;
            assert(self@ =~= old(self)@.drop_first());
            Some(self.svec.array[self.index - 1])
        }
    }
}

} // verus!
