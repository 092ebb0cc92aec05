use vstd::prelude::*;

verus! {

/// What a pop yields on a given stack: the last element and the rest,
/// or zero and the unchanged stack when it is empty.
pub open spec fn spec_pop(st: Seq<u32>) -> (u32, Seq<u32>) {
    if st.len() == 0 {
        (0u32, st)
    } else {
        (st.last(), st.drop_last())
    }
}

/// The stack after duplicating its top: the top appears once more, and an
/// empty stack gains two zeros.
pub open spec fn spec_duplicate_top(st: Seq<u32>) -> Seq<u32> {
    if st.len() == 0 {
        st.push(0u32).push(0u32)
    } else {
        st.push(st.last())
    }
}

/// The stack after exchanging its two top elements, padding with zeros:
/// on two or more elements the top pair is swapped, on one element a zero
/// lands on top, and an empty stack gains two zeros.
pub open spec fn spec_switch_top(st: Seq<u32>) -> Seq<u32> {
    if st.len() == 0 {
        st.push(0u32).push(0u32)
    } else if st.len() == 1 {
        st.push(0u32)
    } else {
        st.drop_last().drop_last().push(st.last()).push(st[st.len() - 2])
    }
}

/// A LIFO of unsigned 32-bit values with an underflow-safe pop: popping an
/// empty stack yields zero rather than failing.
pub struct Stack {
    stack: Vec<u32>,
}

impl View for Stack {
    type V = Seq<u32>;

    closed spec fn view(&self) -> Seq<u32> {
        self.stack@
    }
}

impl Default for Stack {
    /// Creates an empty stack.
    fn default() -> (s: Stack)
        ensures
            s@ == Seq::<u32>::empty(),
    {
        Stack { stack: Vec::new() }
    }
}

impl Stack {
    /// Removes and returns the most recently pushed value; returns zero and
    /// leaves the stack unchanged if it is empty. Underflow is never an
    /// error: zero is the defined sentinel.
    pub fn pop(&mut self) -> (r: u32)
        ensures
            (r, final(self)@) == spec_pop(old(self)@),
            old(self)@.len() == 0 ==> r == 0 && final(self)@ == old(self)@,
    {
        match self.stack.pop() {
            Some(x) => x,
            None => 0,
        }
    }

    /// Appends a value as the new top. There is no capacity limit.
    pub fn push(&mut self, item: u32)
        ensures
            final(self)@ == old(self)@.push(item),
    {
        self.stack.push(item);
    }

    /// Duplicates the top value; on an empty stack pushes two zeros.
    pub fn duplicate_top(&mut self)
        ensures
            final(self)@ == spec_duplicate_top(old(self)@),
    {
        match self.stack.pop() {
            Some(x) => {
                self.stack.push(x);
                self.stack.push(x);
                proof {
                    assert(self@ =~= spec_duplicate_top(old(self)@));
                }
            },
            None => {
                self.stack.push(0);
                self.stack.push(0);
            },
        }
    }

    /// Exchanges the two values at the top of the stack; missing values are
    /// replaced by zeros, so the operation is total.
    pub fn switch_top(&mut self)
        ensures
            final(self)@ == spec_switch_top(old(self)@),
    {
        let a = self.stack.pop();

        if let Some(a) = a {
            let b = self.stack.pop();

            if let Some(b) = b {
                self.stack.push(a);
                self.stack.push(b);
                proof {
                    assert(self@ =~= spec_switch_top(old(self)@));
                }
            } else {
                self.stack.push(a);
                self.stack.push(0);
                proof {
                    assert(self@ =~= spec_switch_top(old(self)@));
                }
            }
        } else {
            self.stack.push(0);
            self.stack.push(0);
        }
    }
}

/// A stack after `n` pops in a row.
pub open spec fn spec_pop_n(st: Seq<u32>, n: nat) -> Seq<u32>
    decreases n,
{
    if n == 0 {
        st
    } else {
        spec_pop_n(spec_pop(st).1, (n - 1) as nat)
    }
}

/// The underflow invariant: however a stack was built up by pushes, popping
/// it at least as many times as it holds elements leaves it empty, and from
/// then on every pop yields zero and changes nothing — indefinitely.
pub proof fn lemma_pop_underflow(st: Seq<u32>, n: nat)
    requires
        n >= st.len(),
    ensures
        spec_pop_n(st, n).len() == 0,
        spec_pop(spec_pop_n(st, n)) == (0u32, spec_pop_n(st, n)),
    decreases n,
{
    if n > 0 {
        lemma_pop_underflow(spec_pop(st).1, (n - 1) as nat);
    }
}

} // verus!
