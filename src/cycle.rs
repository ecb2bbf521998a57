use vstd::prelude::*;

verus! {

/// The cursor that follows `cursor` on a backing sequence of length `len`:
/// one step on, back to the start after the last element.
pub open spec fn advance(cursor: nat, len: nat) -> nat {
    if cursor + 1 == len {
        0
    } else {
        cursor + 1
    }
}

/// The cursor of a fresh view over `len` elements after `k` advances.
pub open spec fn cursor_after(k: nat, len: nat) -> nat
    decreases k,
{
    if k == 0 {
        0
    } else {
        advance(cursor_after((k - 1) as nat, len), len)
    }
}

/// The index that the pull numbered `n` (from zero) of a fresh view over
/// `len` elements reads: the cursor moves before each read.
pub open spec fn pulled_index(n: nat, len: nat) -> nat {
    cursor_after(n + 1, len)
}

/// After `k` advances over a non-empty sequence the cursor is `k` modulo its
/// length.
pub proof fn lemma_cursor_after_mod(k: nat, len: nat)
    requires
        len > 0,
    ensures
        cursor_after(k, len) == k % len,
    decreases k,
{
    if k == 0 {
        assert(0nat % len == 0) by (nonlinear_arith)
            requires
                len > 0,
        ;
    } else {
        lemma_cursor_after_mod((k - 1) as nat, len);
        let c = ((k - 1) as nat) % len;
        assert(k % len == if c + 1 == len { 0 } else { c + 1 }) by (nonlinear_arith)
            requires
                c == ((k - 1) as nat) % len,
                k > 0,
                len > 0,
        ;
        assert(cursor_after(k, len) == advance(cursor_after((k - 1) as nat, len), len));
    }
}

/// Over a non-empty sequence of length `len` the indices that successive
/// pulls read repeat with period `len`.
pub proof fn lemma_pulls_periodic(n: nat, len: nat)
    requires
        len > 0,
    ensures
        pulled_index(n + len, len) == pulled_index(n, len),
        pulled_index(n, len) < len,
{
    lemma_cursor_after_mod(n + 1, len);
    lemma_cursor_after_mod(n + len + 1, len);
    assert((n + len + 1) % len == (n + 1) % len) by (nonlinear_arith)
        requires
            len > 0,
    ;
}

/// An endless view over a borrowed, fixed slice that repeats it forever.
pub struct Cycle<'a, T> {
    arr: &'a [T],
    count: usize,
}

impl<'a, T> Cycle<'a, T> {
    /// The elements that the view cycles over.
    pub closed spec fn backing(&self) -> Seq<T> {
        self.arr@
    }

    /// The index of the element that was read last (zero before any pull).
    pub closed spec fn cursor(&self) -> nat {
        self.count as nat
    }

    /// The cursor is a valid index, or zero over an empty slice.
    pub open spec fn wf(&self) -> bool {
        self.cursor() == 0 || self.cursor() < self.backing().len()
    }

    /// A view over `arr`, positioned at its start.
    pub fn new(arr: &'a [T]) -> (r: Cycle<'a, T>)
        ensures
            r.backing() == arr@,
            r.cursor() == 0,
            r.wf(),
    {
        Cycle { arr, count: 0 }
    }

    /// The current cursor.
    pub fn position(&self) -> (r: usize)
        ensures
            r == self.cursor(),
    {
        self.count
    }

    /// Moves the cursor one step on, wrapping to the start after the last
    /// element, and returns the element it then points at. The first pull of
    /// a fresh view therefore reads index 1 (index 0 when the slice has one
    /// element). The slice must not be empty.
    pub fn next(&mut self) -> (r: Option<&'a T>)
        requires
            old(self).wf(),
            old(self).backing().len() > 0,
        ensures
            final(self).backing() == old(self).backing(),
            final(self).cursor() == advance(old(self).cursor(), old(self).backing().len()),
            final(self).wf(),
            r == Some(&final(self).backing()[final(self).cursor() as int]),
    {
        let arr: &'a [T] = self.arr;
        self.count = self.count + 1;
        if self.count == arr.len() {
            self.count = 0;
        }
        Some(&arr[self.count])
    }
}

} // verus!
