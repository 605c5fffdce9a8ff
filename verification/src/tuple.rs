//! Tuples across the boundary: a run of consecutive stack positions, one per
//! element, written left to right and read left to right.

use vstd::prelude::*;
use crate::engine::{absolute, Engine, EngineView, STACK_LIMIT};
use crate::from_lua::decoded;
use crate::kind::Kind;
use crate::to_lua::{encoded, Item};
use crate::value::LuaValue;

verus! {

/// The instance after every item was encoded, the first one first.
pub open spec fn encoded_all(before: EngineView, items: Seq<Item>) -> EngineView
    decreases items.len(),
{
    if items.len() == 0 {
        before
    } else {
        encoded(encoded_all(before, items.drop_last()), items.last())
    }
}

/// Whether every item can be encoded.
pub open spec fn all_wf(items: Seq<Item>) -> bool {
    forall|i: int| 0 <= i < items.len() ==> (#[trigger] items[i]).wf()
}

/// The absolute position of the first element of a tuple of `width` elements
/// read at `idx`, where the stack holds that many values from there on.
pub open spec fn tuple_base(top: int, width: int, idx: int) -> Option<int> {
    let base = absolute(top, idx);
    if 1 <= base && base + width - 1 <= top {
        Some(base)
    } else {
        None
    }
}

/// The index of the first element from `from` on that cannot be read, the
/// elements lying at `base` and above; the number of elements where every
/// one can be read.
pub open spec fn first_unreadable(
    stack: Seq<LuaValue>,
    kinds: Seq<Kind>,
    base: int,
    from: int,
) -> int
    decreases kinds.len() - from,
{
    if from < 0 || from >= kinds.len() {
        kinds.len() as int
    } else if decoded(stack, kinds[from], base + from) is None {
        from
    } else {
        first_unreadable(stack, kinds, base, from + 1)
    }
}

/// What reading a tuple at `idx` gives, one element per kind: every element
/// where the stack reaches far enough and each position holds a value of its
/// kind, nothing otherwise.
pub open spec fn decoded_tuple(stack: Seq<LuaValue>, kinds: Seq<Kind>, idx: int) -> Option<
    Seq<LuaValue>,
> {
    match tuple_base(stack.len() as int, kinds.len() as int, idx) {
        Some(base) => if forall|j: int|
            0 <= j < kinds.len() ==> (#[trigger] decoded(stack, kinds[j], base + j)) is Some {
            Some(Seq::new(kinds.len(), |j: int| decoded(stack, kinds[j], base + j).unwrap()))
        } else {
            None
        },
        None => None,
    }
}

/// The number of positions that reading a tuple at `idx` looks at: none where
/// the stack does not reach far enough, else every position up to and
/// including the first that cannot be read.
pub open spec fn probes(stack: Seq<LuaValue>, kinds: Seq<Kind>, idx: int) -> int {
    match tuple_base(stack.len() as int, kinds.len() as int, idx) {
        Some(base) => {
            let stop = first_unreadable(stack, kinds, base, 0);
            if stop < kinds.len() {
                stop + 1
            } else {
                kinds.len() as int
            }
        },
        None => 0,
    }
}

/// `first_unreadable` is the least index that cannot be read, or the length.
pub proof fn lemma_first_unreadable(stack: Seq<LuaValue>, kinds: Seq<Kind>, base: int, from: int)
    requires
        0 <= from <= kinds.len(),
    ensures
        from <= first_unreadable(stack, kinds, base, from) <= kinds.len(),
        first_unreadable(stack, kinds, base, from) < kinds.len() ==> decoded(
            stack,
            kinds[first_unreadable(stack, kinds, base, from)],
            base + first_unreadable(stack, kinds, base, from),
        ) is None,
        forall|j: int|
            from <= j < first_unreadable(stack, kinds, base, from) ==> (#[trigger] decoded(
                stack,
                kinds[j],
                base + j,
            )) is Some,
    decreases kinds.len() - from,
{
    if from < kinds.len() && decoded(stack, kinds[from], base + from) is Some {
        lemma_first_unreadable(stack, kinds, base, from + 1);
    }
}

/// The outcome of reading a tuple, with the number of positions looked at.
#[derive(Clone, Debug, PartialEq, Eq)]
pub struct TupleRead {
    /// The elements, where every one could be read.
    pub values: Option<Vec<LuaValue>>,
    /// How many positions were looked at.
    pub probes: usize,
}

impl Engine {
    /// Encodes the items left to right, each on top of the one before.
    pub fn push_tuple(&mut self, items: Vec<Item>)
        requires
            old(self).wf(),
            old(self)@.depth() + items@.len() <= STACK_LIMIT,
            old(self)@.objects.len() + items@.len() <= usize::MAX,
            all_wf(items@),
        ensures
            final(self).wf(),
            final(self)@ == encoded_all(old(self)@, items@),
            final(self)@.stack.len() == old(self)@.stack.len() + items@.len(),
    {
        let ghost all = items@;
        let n: usize = items.len();
        let mut rest = items;
        let mut i: usize = 0;
        while i < n
            invariant
                i <= n,
                n == all.len(),
                rest@ == all.subrange(i as int, n as int),
                self.wf(),
                self@ == encoded_all(old(self)@, all.take(i as int)),
                self@.stack.len() == old(self)@.stack.len() + i,
                self@.objects.len() <= old(self)@.objects.len() + i,
                old(self)@.depth() + n <= STACK_LIMIT,
                self@.below == old(self)@.below,
                old(self)@.objects.len() + n <= usize::MAX,
                all_wf(all),
            decreases n - i,
        {
            let item = rest.remove(0);
            proof {
                assert(item == all[i as int]);
                assert(all.take(i + 1).drop_last() == all.take(i as int));
                assert(all.take(i + 1).last() == all[i as int]);
                assert(rest@ == all.subrange(i + 1, n as int));
            }
            self.push(item);
            i += 1;
        }
        proof {
            assert(all.take(n as int) == all);
        }
    }

    /// Reads a tuple at `idx`, one element per kind, and counts the
    /// positions it looks at. The position of the first element is fixed
    /// once, before any element is read. Where the stack holds fewer values
    /// from there on than the tuple has elements, nothing is looked at.
    /// Elements are read left to right, and reading stops at the first
    /// position that does not hold a value of its kind.
    pub fn read_tuple(&self, kinds: &Vec<Kind>, idx: i32) -> (read: TupleRead)
        requires
            self.wf(),
        ensures
            match read.values {
                Some(values) => decoded_tuple(self@.stack, kinds@, idx as int) == Some(values@),
                None => decoded_tuple(self@.stack, kinds@, idx as int) is None,
            },
            read.probes == probes(self@.stack, kinds@, idx as int),
    {
        let top: i64 = (self.stack.len() - self.base) as i64;
        let n: usize = kinds.len();
        let base: i64 = if idx < 0 {
            top + idx as i64 + 1
        } else {
            idx as i64
        };
        if base < 1 || n > STACK_LIMIT || base + n as i64 - 1 > top {
            return TupleRead { values: None, probes: 0 };
        }
        let mut values: Vec<LuaValue> = Vec::new();
        let mut i: usize = 0;
        while i < n
            invariant
                i <= n,
                n == kinds@.len(),
                n <= STACK_LIMIT,
                self.wf(),
                top == self@.stack.len(),
                1 <= base,
                base + n - 1 <= top,
                tuple_base(top as int, n as int, idx as int) == Some(base as int),
                values@.len() == i,
                forall|j: int|
                    0 <= j < i ==> (#[trigger] decoded(self@.stack, kinds@[j], base + j)) == Some(
                        values@[j],
                    ),
                first_unreadable(self@.stack, kinds@, base as int, 0) == first_unreadable(
                    self@.stack,
                    kinds@,
                    base as int,
                    i as int,
                ),
            decreases n - i,
        {
            match self.cast_to(kinds[i], (base + i as i64) as i32) {
                Some(value) => {
                    values.push(value);
                },
                None => {
                    return TupleRead { values: None, probes: i + 1 };
                },
            }
            i += 1;
        }
        proof {
            assert(values@ =~= Seq::new(
                kinds@.len(),
                |j: int| decoded(self@.stack, kinds@[j], base + j).unwrap(),
            ));
        }
        TupleRead { values: Some(values), probes: n }
    }

    /// Reads a tuple at `idx`, one element per kind. Returns `None` where the
    /// stack holds fewer values from there on than the tuple has elements, or
    /// where some position does not hold a value of its kind.
    pub fn cast_to_tuple(&self, kinds: &Vec<Kind>, idx: i32) -> (values: Option<Vec<LuaValue>>)
        requires
            self.wf(),
        ensures
            match values {
                Some(values) => decoded_tuple(self@.stack, kinds@, idx as int) == Some(values@),
                None => decoded_tuple(self@.stack, kinds@, idx as int) is None,
            },
    {
        self.read_tuple(kinds, idx).values
    }
}

} // verus!
