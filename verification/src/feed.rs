//! Which messages of a subscription are passed on: those whose content has
//! the wanted length, until enough of them have been seen.

use vstd::prelude::*;

verus! {

/// The length, in bytes, of the contents that are passed on.
pub const WANTED_LEN: usize = 4;

/// How many messages are passed on before the subscription is done.
pub const WANTED_COUNT: usize = 3;

/// Whether a content of `len` bytes is one to pass on.
pub open spec fn wanted(len: usize) -> bool {
    len == WANTED_LEN
}

/// How many of the first `upto` lengths in `lens` are wanted.
pub open spec fn wanted_before(lens: Seq<usize>, upto: int) -> nat
    decreases upto,
{
    if upto <= 0 {
        0
    } else {
        wanted_before(lens, upto - 1) + if wanted(lens[upto - 1]) {
            1nat
        } else {
            0nat
        }
    }
}

/// Whether the message at `index` is passed on: it is wanted, and fewer
/// than `WANTED_COUNT` wanted messages came before it.
pub open spec fn passed_on(lens: Seq<usize>, index: int) -> bool {
    wanted(lens[index]) && wanted_before(lens, index) < WANTED_COUNT
}

/// The filter over one subscription: it counts down the messages that are
/// still to be passed on.
#[derive(Clone, Copy, Debug, PartialEq, Eq, Structural)]
pub struct Selector {
    pub remaining: usize,
}

impl Selector {
    /// A filter that has passed nothing on yet.
    pub fn new() -> (s: Selector)
        ensures
            s.remaining == WANTED_COUNT,
    {
        Selector { remaining: WANTED_COUNT }
    }

    /// Whether enough messages have been passed on.
    pub fn is_done(&self) -> (done: bool)
        ensures
            done == (self.remaining == 0),
    {
        self.remaining == 0
    }

    /// Decides on the next message, whose content has `len` bytes: it is
    /// passed on if it is wanted and the filter is not done.
    pub fn offer(&mut self, len: usize) -> (pass: bool)
        ensures
            pass == (wanted(len) && old(self).remaining > 0),
            final(self).remaining == if pass {
                (old(self).remaining - 1) as usize
            } else {
                old(self).remaining
            },
    {
        if self.remaining > 0 && len == WANTED_LEN {
            self.remaining = self.remaining - 1;
            true
        } else {
            false
        }
    }
}

/// The indices of the messages that are passed on, given the lengths of
/// all contents in arrival order: the first `WANTED_COUNT` wanted ones.
pub fn select(lens: &Vec<usize>) -> (picked: Vec<usize>)
    ensures
        picked@.len() <= WANTED_COUNT,
        forall|k: int| 0 <= k < picked@.len() ==> 0 <= #[trigger] picked@[k] < lens@.len(),
        forall|k: int, l: int| 0 <= k < l < picked@.len() ==> picked@[k] < picked@[l],
        forall|i: int| 0 <= i < lens@.len() ==> (picked@.contains(i as usize) <==> passed_on(lens@, i)),
{
    let mut selector = Selector::new();
    let mut picked: Vec<usize> = Vec::new();
    let mut i: usize = 0;
    while i < lens.len()
        invariant
            i <= lens@.len(),
            selector.remaining + wanted_before(lens@, i as int) >= WANTED_COUNT,
            selector.remaining > 0 ==> selector.remaining + wanted_before(lens@, i as int)
                == WANTED_COUNT,
            picked@.len() + selector.remaining == WANTED_COUNT,
            forall|k: int| 0 <= k < picked@.len() ==> 0 <= #[trigger] picked@[k] < i,
            forall|k: int, l: int| 0 <= k < l < picked@.len() ==> picked@[k] < picked@[l],
            forall|j: int| 0 <= j < i ==> (picked@.contains(j as usize) <==> passed_on(lens@, j)),
        decreases lens@.len() - i,
    {
        let ghost before = picked@;
        let pass = selector.offer(lens[i]);
        if pass {
            picked.push(i);
            assert(picked@[picked@.len() - 1] == i);
            assert forall|j: int| 0 <= j < i + 1 implies (picked@.contains(j as usize)
                <==> passed_on(lens@, j)) by {
                if j < i {
                    if before.contains(j as usize) {
                        let k = choose|k: int| 0 <= k < before.len() && before[k] == j as usize;
                        assert(picked@[k] == j as usize);
                    }
                    if picked@.contains(j as usize) {
                        let k = choose|k: int| 0 <= k < picked@.len() && picked@[k] == j as usize;
                        assert(before[k] == j as usize);
                    }
                }
            }
        } else {
            assert forall|j: int| 0 <= j < i + 1 implies (picked@.contains(j as usize)
                <==> passed_on(lens@, j)) by {
                if j == i && picked@.contains(j as usize) {
                    let k = choose|k: int| 0 <= k < picked@.len() && picked@[k] == j as usize;
                    assert(picked@[k] < i);
                }
            }
        }
        i = i + 1;
    }
    picked
}

} // verus!
