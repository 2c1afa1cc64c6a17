//! A doubly linked list whose nodes live in an arena.
//!
//! Links are slot numbers of the arena instead of pointers, so a node has one
//! owner (its slot) and the backward link never keeps anything alive. The
//! store has three shapes: empty, one element reached through `start` alone,
//! and two or more elements reached through `start` and `end`.

use vstd::prelude::*;
use vstd::std_specs::cmp::PartialEqSpec;

verus! {

/// One element of the list: the slot of the following node, the slot of the
/// preceding node, and the payload.
pub struct DLLNode<T> {
    pub next: Option<usize>,
    pub prev: Option<usize>,
    pub field: T,
}

impl<T> DLLNode<T> {
    /// Points the backward link at slot `prev`.
    pub fn set_prev(&mut self, prev: usize)
        ensures
            final(self).prev == Some(prev),
            final(self).next == old(self).next,
            final(self).field == old(self).field,
    {
        self.prev = Some(prev);
    }

    /// Clears the backward link.
    pub fn drop_prev(&mut self)
        ensures
            final(self).prev == None::<usize>,
            final(self).next == old(self).next,
            final(self).field == old(self).field,
    {
        self.prev = None;
    }

    /// Points the forward link at slot `next`.
    pub fn set_next(&mut self, next: usize)
        ensures
            final(self).next == Some(next),
            final(self).prev == old(self).prev,
            final(self).field == old(self).field,
    {
        self.next = Some(next);
    }

    /// Clears the forward link.
    pub fn drop_next(&mut self)
        ensures
            final(self).next == None::<usize>,
            final(self).prev == old(self).prev,
            final(self).field == old(self).field,
    {
        self.next = None;
    }
}

/// What `push_back` makes of a list.
pub open spec fn pushed_back<T>(s: Seq<T>, v: T) -> Seq<T> {
    s.push(v)
}

/// What `push_front` makes of a list.
pub open spec fn pushed_front<T>(s: Seq<T>, v: T) -> Seq<T> {
    seq![v] + s
}

/// What `drop_start` returns and leaves: nothing and the same list when the
/// list is empty, else the first element and the rest.
pub open spec fn dropped_start<T>(s: Seq<T>) -> (Option<T>, Seq<T>) {
    if s.len() == 0 {
        (None, s)
    } else {
        (Some(s[0]), s.drop_first())
    }
}

/// What `drop_end` returns and leaves: nothing and the same list when the
/// list is empty, else the last element and what stands before it.
pub open spec fn dropped_end<T>(s: Seq<T>) -> (Option<T>, Seq<T>) {
    if s.len() == 0 {
        (None, s)
    } else {
        (Some(s.last()), s.drop_last())
    }
}

/// `i` is the position of the first element of `s` that equals `val`.
pub open spec fn first_match<T: PartialEq>(s: Seq<T>, val: T, i: int) -> bool {
    &&& 0 <= i < s.len()
    &&& s[i].eq_spec(&val)
    &&& forall|j: int| 0 <= j < i ==> !(#[trigger] s[j]).eq_spec(&val)
}

/// No element of `s` equals `val`.
pub open spec fn no_match<T: PartialEq>(s: Seq<T>, val: T) -> bool {
    forall|j: int| 0 <= j < s.len() ==> !(#[trigger] s[j]).eq_spec(&val)
}

/// Every free slot number names an empty slot, and none is listed twice.
spec fn free_ok<T>(slots: Seq<Option<DLLNode<T>>>, free: Seq<usize>) -> bool {
    &&& forall|j: int| 0 <= j < free.len() ==> (#[trigger] free[j]) < slots.len()
    &&& forall|j: int| 0 <= j < free.len() ==> slots[(#[trigger] free[j]) as int] is None
    &&& free.no_duplicates()
}

/// Puts `node` into an empty slot, a recycled one if there is any, and returns
/// the slot's number.
fn occupy<T>(slots: &mut Vec<Option<DLLNode<T>>>, free: &mut Vec<usize>, node: DLLNode<T>) -> (idx:
    usize)
    requires
        free_ok(old(slots)@, old(free)@),
    ensures
        free_ok(final(slots)@, final(free)@),
        idx < final(slots)@.len(),
        final(slots)@[idx as int] == Some(node),
        idx < old(slots)@.len() ==> old(slots)@[idx as int] is None,
        final(slots)@.len() >= old(slots)@.len(),
        forall|k: int|
            0 <= k < old(slots)@.len() && k != idx ==> final(slots)@[k] == old(slots)@[k],
        final(slots)@.len() - final(free)@.len() == old(slots)@.len() - old(free)@.len() + 1,
{
    match free.pop() {
        Some(i) => {
            slots[i] = Some(node);
            proof {
                assert(free@ =~= old(free)@.drop_last());
                idx_after_recycle(old(slots)@, old(free)@, i);
            }
            i
        },
        None => {
            slots.push(Some(node));
            slots.len() - 1
        },
    }
}

/// After the last free slot number is taken, the others still name empty
/// slots other than that one.
proof fn idx_after_recycle<T>(slots: Seq<Option<DLLNode<T>>>, free: Seq<usize>, i: usize)
    requires
        free_ok(slots, free),
        free.len() > 0,
        free.last() == i,
    ensures
        forall|j: int| 0 <= j < free.len() - 1 ==> (#[trigger] free[j]) != i,
{
    assert forall|j: int| 0 <= j < free.len() - 1 implies (#[trigger] free[j]) != i by {
        assert(free[free.len() - 1] == i);
    }
}

/// Empties slot `idx`, records it as free, and returns the node it held.
fn vacate<T>(slots: &mut Vec<Option<DLLNode<T>>>, free: &mut Vec<usize>, idx: usize) -> (node:
    DLLNode<T>)
    requires
        free_ok(old(slots)@, old(free)@),
        idx < old(slots)@.len(),
        old(slots)@[idx as int] is Some,
    ensures
        free_ok(final(slots)@, final(free)@),
        Some(node) == old(slots)@[idx as int],
        final(slots)@ == old(slots)@.update(idx as int, None),
        final(free)@ == old(free)@.push(idx),
{
    let taken = slots[idx].take();
    free.push(idx);
    assert(slots@ =~= old(slots)@.update(idx as int, None));
    match taken {
        Some(node) => node,
        None => vstd::pervasive::unreached(),
    }
}

/// The nodes of a list: the arena, the slots that are free again, the slot
/// of the first node, the slot of the last node, and the element count.
struct Arena<T> {
    slots: Vec<Option<DLLNode<T>>>,
    free: Vec<usize>,
    start: Option<usize>,
    end: Option<usize>,
    len: usize,
    /// The slots of the nodes, first element to last.
    chain: Ghost<Seq<usize>>,
}

impl<T> View for Arena<T> {
    type V = Seq<T>;

    /// The payloads, first element to last.
    closed spec fn view(&self) -> Seq<T> {
        Seq::new(self.chain@.len(), |i: int| self.slots@[self.chain@[i] as int].unwrap().field)
    }
}

impl<T> Arena<T> {
    /// The node at position `i` sits in a live slot and its links name its
    /// neighbours in the chain.
    spec fn linked(&self, i: int) -> bool {
        let c = self.chain@;
        &&& c[i] < self.slots@.len()
        &&& self.slots@[c[i] as int] is Some
        &&& self.slots@[c[i] as int].unwrap().next == (if i + 1 < c.len() {
            Some(c[i + 1])
        } else {
            None
        })
        &&& self.slots@[c[i] as int].unwrap().prev == (if i > 0 {
            Some(c[i - 1])
        } else {
            None
        })
    }

    /// The store's invariant: the chain holds `len` distinct live slots linked
    /// in both directions, every other slot is free, `start` is absent exactly
    /// when the list is empty, and `end` is present exactly when the list has
    /// two elements or more.
    spec fn wf(&self) -> bool {
        let c = self.chain@;
        &&& c.len() == self.len
        &&& self.len + self.free@.len() == self.slots@.len()
        &&& c.no_duplicates()
        &&& forall|i: int| 0 <= i < c.len() ==> self.linked(i)
        &&& free_ok(self.slots@, self.free@)
        &&& self.start == (if c.len() == 0 {
            None
        } else {
            Some(c[0])
        })
        &&& self.end == (if c.len() < 2 {
            None
        } else {
            Some(c[c.len() - 1])
        })
    }

    /// An empty list.
    fn new() -> (s: Self)
        ensures
            s.wf(),
            s@ == Seq::<T>::empty(),
    {
        let s = Arena {
            slots: Vec::new(),
            free: Vec::new(),
            start: None,
            end: None,
            len: 0,
            chain: Ghost(Seq::empty()),
        };
        assert(s@ =~= Seq::<T>::empty());
        s
    }

    /// The number of elements.
    fn len(&self) -> (n: usize)
        requires
            self.wf(),
        ensures
            n == self@.len(),
    {
        self.len
    }

    /// Appends `val` after the last element.
    fn push_back(&mut self, val: T)
        requires
            old(self).wf(),
        ensures
            final(self).wf(),
            final(self)@ == pushed_back(old(self)@, val),
    {
        proof {
            if self.len > 0 {
                assert(self.linked(0));
                assert(self.linked(self.len - 1));
            }
        }
        let node = DLLNode {
            next: None,
            prev: if self.len == 1 {
                self.start
            } else {
                self.end
            },
            field: val,
        };
        let idx = occupy(&mut self.slots, &mut self.free, node);
        assert(self.len < self.slots@.len());
        let ghost mid = self.slots@;
        match self.len {
            0 => {
                self.start = Some(idx);
            },
            1 => {
                let first = self.start.unwrap();
                match &mut self.slots[first] {
                    Some(n) => n.set_next(idx),
                    None => {},
                }
                self.end = Some(idx);
            },
            _ => {
                let last = self.end.unwrap();
                match &mut self.slots[last] {
                    Some(n) => n.set_next(idx),
                    None => {},
                }
                self.end = Some(idx);
            },
        }
        assert(self.len < self.slots.len()) by {
            assert(self.slots@.len() == mid.len());
        }
        self.len += 1;
        self.chain = Ghost(self.chain@.push(idx));
        proof {
            let c = self.chain@;
            let oc = old(self).chain@;
            assert forall|i: int| 0 <= i < oc.len() implies oc[i] != idx && c[i] == oc[i] by {
                assert(old(self).linked(i));
            }
            assert(self.slots@.len() == mid.len());
            assert forall|k: int|
                0 <= k < mid.len() && (oc.len() == 0 || k != oc.last()) implies self.slots@[k]
                == mid[k] by {}
            assert forall|i: int| 0 <= i < c.len() implies self.linked(i) by {
                if i < oc.len() {
                    assert(old(self).linked(i));
                    if i < oc.len() - 1 {
                        assert(oc[i] != oc.last());
                    }
                }
            }
            assert forall|j: int| 0 <= j < self.free@.len() implies self.slots@[(
            #[trigger] self.free@[j]) as int] is None by {
                assert(mid[self.free@[j] as int] is None);
            }
            assert(c.no_duplicates());
            assert(self@ =~= pushed_back(old(self)@, val)) by {
                assert forall|i: int| 0 <= i < oc.len() implies self@[i] == old(self)@[i] by {
                    assert(old(self).linked(i));
                }
            }
        }
    }

    /// Inserts `val` before the first element.
    fn push_front(&mut self, val: T)
        requires
            old(self).wf(),
        ensures
            final(self).wf(),
            final(self)@ == pushed_front(old(self)@, val),
    {
        proof {
            if self.len > 0 {
                assert(self.linked(0));
            }
        }
        let node = DLLNode { next: self.start, prev: None, field: val };
        let idx = occupy(&mut self.slots, &mut self.free, node);
        let ghost mid = self.slots@;
        match self.len {
            0 => {},
            1 => {
                let first = self.start.unwrap();
                match &mut self.slots[first] {
                    Some(n) => n.set_prev(idx),
                    None => {},
                }
                self.end = self.start;
            },
            _ => {
                let first = self.start.unwrap();
                match &mut self.slots[first] {
                    Some(n) => n.set_prev(idx),
                    None => {},
                }
            },
        }
        self.start = Some(idx);
        assert(self.len < self.slots.len()) by {
            assert(self.slots@.len() == mid.len());
        }
        self.len += 1;
        self.chain = Ghost(seq![idx] + self.chain@);
        proof {
            let c = self.chain@;
            let oc = old(self).chain@;
            assert forall|i: int| 0 <= i < oc.len() implies oc[i] != idx && c[i + 1] == oc[i] by {
                assert(old(self).linked(i));
            }
            assert forall|k: int|
                0 <= k < mid.len() && (oc.len() == 0 || k != oc[0]) implies self.slots@[k]
                == mid[k] by {}
            assert forall|i: int| 0 <= i < c.len() implies self.linked(i) by {
                if i > 0 {
                    assert(old(self).linked(i - 1));
                    assert(c[i] == oc[i - 1]);
                    if i > 1 {
                        assert(oc[i - 1] != oc[0]);
                        assert(c[i - 1] == oc[i - 2]);
                    }
                    if i + 1 < c.len() {
                        assert(c[i + 1] == oc[i]);
                    }
                }
            }
            assert forall|j: int| 0 <= j < self.free@.len() implies self.slots@[(
            #[trigger] self.free@[j]) as int] is None by {
                assert(mid[self.free@[j] as int] is None);
            }
            assert(c.no_duplicates()) by {
                assert forall|i: int, j: int| 0 <= i < c.len() && 0 <= j < c.len() && i != j implies c[i]
                    != c[j] by {
                    if i > 0 {
                        assert(c[i] == oc[i - 1]);
                    }
                    if j > 0 {
                        assert(c[j] == oc[j - 1]);
                    }
                }
            }
            assert(self@ =~= pushed_front(old(self)@, val)) by {
                assert forall|i: int| 0 <= i < oc.len() implies self@[i + 1] == old(self)@[i] by {
                    assert(old(self).linked(i));
                }
            }
        }
    }

    /// The first element.
    fn peek_front(&self) -> (val: T) where T: Copy
        requires
            self.wf(),
            self@.len() > 0,
        ensures
            val == self@[0],
    {
        proof {
            assert(self.linked(0));
        }
        match &self.slots[self.start.unwrap()] {
            Some(node) => node.field,
            None => vstd::pervasive::unreached(),
        }
    }

    /// The last element.
    fn peek_back(&self) -> (val: T) where T: Copy
        requires
            self.wf(),
            self@.len() > 0,
        ensures
            val == self@.last(),
    {
        proof {
            assert(self.linked(self.len - 1));
        }
        let last = match self.end {
            Some(e) => e,
            None => self.start.unwrap(),
        };
        match &self.slots[last] {
            Some(node) => node.field,
            None => vstd::pervasive::unreached(),
        }
    }

    /// Removes the first element and returns it; on an empty list returns
    /// nothing and changes nothing.
    fn drop_start(&mut self) -> (r: Option<T>)
        requires
            old(self).wf(),
        ensures
            final(self).wf(),
            r == dropped_start(old(self)@).0,
            final(self)@ == dropped_start(old(self)@).1,
    {
        let first = match self.start {
            Some(f) => f,
            None => {
                return None;
            },
        };
        proof {
            assert(self.linked(0));
            if self.len > 1 {
                assert(self.linked(1));
            }
        }
        let node = vacate(&mut self.slots, &mut self.free, first);
        let ghost mid = self.slots@;
        match node.next {
            Some(n) => {
                match &mut self.slots[n] {
                    Some(m) => m.drop_prev(),
                    None => {},
                }
            },
            None => {},
        }
        self.start = node.next;
        if self.len <= 2 {
            self.end = None;
        }
        self.len -= 1;
        self.chain = Ghost(self.chain@.drop_first());
        proof {
            let c = self.chain@;
            let oc = old(self).chain@;
            assert forall|i: int| 0 <= i < c.len() implies c[i] == oc[i + 1] && c[i] != first by {}
            assert forall|k: int|
                0 <= k < mid.len() && (c.len() == 0 || k != c[0]) implies self.slots@[k]
                == mid[k] by {}
            assert forall|i: int| 0 <= i < c.len() implies self.linked(i) by {
                assert(old(self).linked(i + 1));
                if i > 0 {
                    assert(c[i] != c[0]);
                    assert(c[i - 1] == oc[i]);
                }
                if i + 1 < c.len() {
                    assert(c[i + 1] == oc[i + 2]);
                }
            }
            assert forall|j: int| 0 <= j < self.free@.len() implies self.slots@[(
            #[trigger] self.free@[j]) as int] is None by {
                assert(mid[self.free@[j] as int] is None);
                if c.len() > 0 && self.free@[j] == c[0] {
                    assert(old(self).linked(1));
                }
            }
            assert(c.no_duplicates());
            assert(self@ =~= old(self)@.drop_first()) by {
                assert forall|i: int| 0 <= i < c.len() implies self@[i] == old(self)@[i + 1] by {
                    assert(old(self).linked(i + 1));
                }
            }
        }
        Some(node.field)
    }

    /// The position of the first element equal to `val`, if there is one.
    /// What "equal" means is `T`'s own `==`; where that follows its
    /// specification, the result is exact.
    fn search(&self, val: &T) -> (r: Option<usize>) where T: PartialEq
        requires
            self.wf(),
        ensures
            r matches Some(i) ==> i < self@.len(),
            T::obeys_eq_spec() ==> match r {
                Some(i) => first_match(self@, *val, i as int),
                None => no_match(self@, *val),
            },
    {
        let mut cur = self.start;
        let mut counter: usize = 0;
        loop
            invariant
                self.wf(),
                counter <= self.len,
                cur == (if counter < self.len {
                    Some(self.chain@[counter as int])
                } else {
                    None
                }),
                T::obeys_eq_spec() ==> forall|j: int|
                    0 <= j < counter ==> !(#[trigger] self@[j]).eq_spec(val),
            decreases self.len - counter,
        {
            let c = match cur {
                Some(c) => c,
                None => {
                    return None;
                },
            };
            proof {
                assert(self.linked(counter as int));
            }
            match &self.slots[c] {
                Some(node) => {
                    if node.field == *val {
                        return Some(counter);
                    }
                    cur = node.next;
                },
                None => {},
            }
            counter += 1;
        }
    }

    /// Puts `val` in place of the element at position `index` and returns
    /// that element; an index past the end returns nothing and changes
    /// nothing.
    fn replace_at(&mut self, val: T, index: usize) -> (r: Option<T>)
        requires
            old(self).wf(),
        ensures
            final(self).wf(),
            index < old(self)@.len() ==> r == Some(old(self)@[index as int]) && final(self)@ == old(
                self,
            )@.update(index as int, val),
            index >= old(self)@.len() ==> r is None && final(self)@ == old(self)@,
    {
        if self.len <= index {
            return None;
        }
        proof {
            assert(self.linked(0));
        }
        let mut ptr = self.start.unwrap();
        let mut current: usize = 0;
        while current < index
            invariant
                self.wf(),
                *self == *old(self),
                current <= index < self.len,
                ptr == self.chain@[current as int],
            decreases index - current,
        {
            proof {
                assert(self.linked(current as int));
            }
            match &self.slots[ptr] {
                Some(node) => {
                    ptr = node.next.unwrap();
                },
                None => {},
            }
            current += 1;
        }
        proof {
            assert(self.linked(index as int));
        }
        let ghost put = val;
        let mut val = val;
        match &mut self.slots[ptr] {
            Some(node) => {
                std::mem::swap(&mut node.field, &mut val);
            },
            None => {},
        }
        proof {
            let c = self.chain@;
            assert forall|i: int| 0 <= i < c.len() implies self.linked(i) by {
                assert(old(self).linked(i));
            }
            assert forall|j: int| 0 <= j < self.free@.len() implies self.slots@[(
            #[trigger] self.free@[j]) as int] is None by {
                assert(old(self).slots@[self.free@[j] as int] is None);
            }
            assert(self@ =~= old(self)@.update(index as int, put)) by {
                assert forall|i: int| 0 <= i < c.len() && i != index implies self@[i] == old(
                    self,
                )@[i] by {
                    assert(old(self).linked(i));
                    assert(c[i] != c[index as int]);
                }
            }
        }
        Some(val)
    }

    /// Removes the last element and returns it; on an empty list returns
    /// nothing and changes nothing.
    fn drop_end(&mut self) -> (r: Option<T>)
        requires
            old(self).wf(),
        ensures
            final(self).wf(),
            r == dropped_end(old(self)@).0,
            final(self)@ == dropped_end(old(self)@).1,
    {
        let first = match self.start {
            Some(f) => f,
            None => {
                return None;
            },
        };
        proof {
            assert(self.linked(0));
            assert(self.linked(self.len - 1));
            if self.len > 1 {
                assert(self.linked(self.len - 2));
            }
        }
        let last = match self.end {
            Some(e) => e,
            None => first,
        };
        let node = vacate(&mut self.slots, &mut self.free, last);
        let ghost mid = self.slots@;
        match node.prev {
            Some(p) => {
                match &mut self.slots[p] {
                    Some(m) => m.drop_next(),
                    None => {},
                }
            },
            None => {},
        }
        if self.len == 1 {
            self.start = None;
        }
        if self.len <= 2 {
            self.end = None;
        } else {
            self.end = node.prev;
        }
        self.len -= 1;
        self.chain = Ghost(self.chain@.drop_last());
        proof {
            let c = self.chain@;
            let oc = old(self).chain@;
            assert forall|i: int| 0 <= i < c.len() implies c[i] == oc[i] && c[i] != last by {}
            assert forall|k: int|
                0 <= k < mid.len() && (c.len() == 0 || k != c.last()) implies self.slots@[k]
                == mid[k] by {}
            assert forall|i: int| 0 <= i < c.len() implies self.linked(i) by {
                assert(old(self).linked(i));
                if i + 1 < c.len() {
                    assert(c[i] != c.last());
                }
            }
            assert forall|j: int| 0 <= j < self.free@.len() implies self.slots@[(
            #[trigger] self.free@[j]) as int] is None by {
                assert(mid[self.free@[j] as int] is None);
                if c.len() > 0 && self.free@[j] == c.last() {
                    assert(old(self).linked(c.len() - 1));
                }
            }
            assert(c.no_duplicates());
            assert(self@ =~= old(self)@.drop_last()) by {
                assert forall|i: int| 0 <= i < c.len() implies self@[i] == old(self)@[i] by {
                    assert(old(self).linked(i));
                }
            }
        }
        Some(node.field)
    }
}

/// The list: elements in a row, taken and given at both ends.
pub struct DLLStore<T> {
    nodes: Arena<T>,
}

impl<T> View for DLLStore<T> {
    type V = Seq<T>;

    /// The elements, first to last.
    closed spec fn view(&self) -> Seq<T> {
        self.nodes@
    }
}

impl<T> DLLStore<T> {
    /// The nodes are linked as the arena wants them.
    #[verifier::type_invariant]
    spec fn linked_well(&self) -> bool {
        self.nodes.wf()
    }

    /// An empty list.
    pub fn new() -> (s: Self)
        ensures
            s@ == Seq::<T>::empty(),
    {
        DLLStore { nodes: Arena::new() }
    }

    /// The number of elements.
    pub fn len(&self) -> (n: usize)
        ensures
            n == self@.len(),
    {
        proof {
            use_type_invariant(self);
        }
        self.nodes.len()
    }

    /// Appends `val` after the last element.
    pub fn push_back(&mut self, val: T)
        ensures
            final(self)@ == pushed_back(old(self)@, val),
    {
        proof {
            use_type_invariant(&*self);
        }
        let mut nodes = Arena::new();
        std::mem::swap(&mut nodes, &mut self.nodes);
        nodes.push_back(val);
        self.nodes = nodes;
    }

    /// Inserts `val` before the first element.
    pub fn push_front(&mut self, val: T)
        ensures
            final(self)@ == pushed_front(old(self)@, val),
    {
        proof {
            use_type_invariant(&*self);
        }
        let mut nodes = Arena::new();
        std::mem::swap(&mut nodes, &mut self.nodes);
        nodes.push_front(val);
        self.nodes = nodes;
    }

    /// The first element.
    pub fn peek_front(&self) -> (val: T) where T: Copy
        requires
            self@.len() > 0,
        ensures
            val == self@[0],
    {
        proof {
            use_type_invariant(self);
        }
        self.nodes.peek_front()
    }

    /// The last element.
    pub fn peek_back(&self) -> (val: T) where T: Copy
        requires
            self@.len() > 0,
        ensures
            val == self@.last(),
    {
        proof {
            use_type_invariant(self);
        }
        self.nodes.peek_back()
    }

    /// Removes the first element and returns it; on an empty list returns
    /// nothing and changes nothing.
    pub fn drop_start(&mut self) -> (r: Option<T>)
        ensures
            r == dropped_start(old(self)@).0,
            final(self)@ == dropped_start(old(self)@).1,
    {
        proof {
            use_type_invariant(&*self);
        }
        let mut nodes = Arena::new();
        std::mem::swap(&mut nodes, &mut self.nodes);
        let r = nodes.drop_start();
        self.nodes = nodes;
        r
    }

    /// Removes the last element and returns it; on an empty list returns
    /// nothing and changes nothing.
    pub fn drop_end(&mut self) -> (r: Option<T>)
        ensures
            r == dropped_end(old(self)@).0,
            final(self)@ == dropped_end(old(self)@).1,
    {
        proof {
            use_type_invariant(&*self);
        }
        let mut nodes = Arena::new();
        std::mem::swap(&mut nodes, &mut self.nodes);
        let r = nodes.drop_end();
        self.nodes = nodes;
        r
    }

    /// The position of the first element equal to `val`, if there is one.
    /// What "equal" means is `T`'s own `==`; where that follows its
    /// specification, the result is exact.
    pub fn search(&self, val: &T) -> (r: Option<usize>) where T: PartialEq
        ensures
            r matches Some(i) ==> i < self@.len(),
            T::obeys_eq_spec() ==> match r {
                Some(i) => first_match(self@, *val, i as int),
                None => no_match(self@, *val),
            },
    {
        proof {
            use_type_invariant(self);
        }
        self.nodes.search(val)
    }

    /// Puts `val` in place of the element at position `index` and returns
    /// that element; an index past the end returns nothing and changes
    /// nothing.
    pub fn replace_at(&mut self, val: T, index: usize) -> (r: Option<T>)
        ensures
            index < old(self)@.len() ==> r == Some(old(self)@[index as int]) && final(self)@ == old(
                self,
            )@.update(index as int, val),
            index >= old(self)@.len() ==> r is None && final(self)@ == old(self)@,
    {
        proof {
            use_type_invariant(&*self);
        }
        let mut nodes = Arena::new();
        std::mem::swap(&mut nodes, &mut self.nodes);
        let r = nodes.replace_at(val, index);
        self.nodes = nodes;
        r
    }
}

} // verus!
