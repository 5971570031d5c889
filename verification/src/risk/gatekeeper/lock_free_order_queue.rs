//! Bounded FIFO order queue between the order path and the risk thread.
//!
//! A ring buffer of slots whose capacity is the requested one rounded up to
//! a power of two. A producer counter (`head`) and a consumer counter
//! (`tail`) run over all 64-bit values, wrapping around; a counter's slot
//! is its value masked by `capacity - 1`. The consumer may reject the item
//! it takes, which then counts as dropped.

use vstd::prelude::*;

use vstd::arithmetic::div_mod::{lemma_fundamental_div_mod, lemma_mod_mod};
use vstd::arithmetic::power2::{lemma2_to64, lemma_pow2_adds, lemma_pow2_pos, pow2};
use vstd::bits::{low_bits_mask, lemma_u64_low_bits_mask_is_mod};

verus! {

/// Whether `n` is a power of two.
pub open spec fn is_power_of_two(n: int) -> bool
    decreases n,
{
    if n <= 0 {
        false
    } else if n == 1 {
        true
    } else {
        n % 2 == 0 && is_power_of_two(n / 2)
    }
}

/// `r` is the smallest power of two at or above `n`.
pub open spec fn is_next_power_of_two(r: int, n: int) -> bool {
    &&& is_power_of_two(r)
    &&& r >= n
    &&& (r == 1 || r / 2 < n)
}

/// The abstract state of a [`LockFreeOrderQueue`].
pub struct QueueView<T> {
    /// Queued items, oldest first.
    pub items: Seq<T>,
    pub capacity: usize,
    pub dropped_count: usize,
}

/// 2^64, the period of the wrapping counters.
pub open spec fn counter_period() -> int {
    0x1_0000_0000_0000_0000
}

/// Bounded FIFO queue of orders awaiting risk evaluation.
pub struct LockFreeOrderQueue<T> {
    /// One slot per position of the ring.
    buffer: Vec<Option<T>>,
    capacity: usize,
    /// `capacity - 1`: a counter's slot is the counter masked by it.
    mask: usize,
    /// Producer counter: the next item goes to its slot.
    head: u64,
    /// Consumer counter: the oldest item is in its slot.
    tail: u64,
    /// Number of queued items.
    count: usize,
    dropped_count: usize,
    /// The capacity's base-2 logarithm.
    capacity_log2: Ghost<nat>,
}

impl<T> LockFreeOrderQueue<T> {
    /// The slot of the `i`-th queued item.
    spec fn item_slot(&self, i: int) -> int {
        (self.tail + i) % (self.capacity as int)
    }
}

impl<T> View for LockFreeOrderQueue<T> {
    type V = QueueView<T>;

    closed spec fn view(&self) -> QueueView<T> {
        QueueView {
            items: Seq::new(self.count as nat, |i: int| self.buffer@[self.item_slot(i)]->0),
            capacity: self.capacity,
            dropped_count: self.dropped_count,
        }
    }
}

/// Masking a counter by `2^k - 1` gives its remainder modulo `2^k`.
proof fn lemma_mask_is_mod(x: u64, k: nat)
    requires
        k < 64,
    ensures
        (x & ((pow2(k) - 1) as u64)) as int == (x as int) % (pow2(k) as int),
        pow2(k) <= u64::MAX,
{
    lemma2_to64();
    lemma_pow2_pos(k);
    vstd::arithmetic::power2::lemma_pow2_strictly_increases(k, 64);
    lemma_u64_low_bits_mask_is_mod(x, k);
    assert(low_bits_mask(k) == pow2(k) - 1);
}

/// Wrapping a counter around 2^64 keeps its slot: `2^k` divides `2^64`.
proof fn lemma_wrap_keeps_slot(x: int, k: nat)
    requires
        k <= 64,
    ensures
        (x % counter_period()) % (pow2(k) as int) == x % (pow2(k) as int),
{
    lemma2_to64();
    lemma_pow2_pos(k);
    lemma_pow2_pos((64 - k) as nat);
    lemma_pow2_adds(k, (64 - k) as nat);
    assert(k + (64 - k) as nat == 64);
    lemma_mod_mod(x, pow2(k) as int, pow2((64 - k) as nat) as int);
}

/// Fewer than `c` consecutive positions fall into distinct slots.
proof fn lemma_slots_distinct(a: int, i: int, j: int, c: int)
    requires
        0 <= i < j < c,
    ensures
        (a + i) % c != (a + j) % c,
{
    lemma_fundamental_div_mod(a + i, c);
    lemma_fundamental_div_mod(a + j, c);
    let qi = (a + i) / c;
    let qj = (a + j) / c;
    if (a + i) % c == (a + j) % c {
        assert(c * (qj - qi) == j - i) by (nonlinear_arith)
            requires
                a + i == c * qi + (a + i) % c,
                a + j == c * qj + (a + j) % c,
                (a + i) % c == (a + j) % c;
        assert(false) by (nonlinear_arith)
            requires
                c * (qj - qi) == j - i,
                0 < j - i < c;
    }
}

impl<T> LockFreeOrderQueue<T> {
    /// Well-formedness: the capacity is a power of two at most 2^30 with
    /// its mask, one slot per ring position, at most `capacity` items, the
    /// producer counter `count` positions (modulo 2^64) ahead of the
    /// consumer counter, and every queued item's slot filled.
    pub closed spec fn wf(&self) -> bool {
        &&& self.capacity_log2@ <= 30
        &&& self.capacity as int == pow2(self.capacity_log2@)
        &&& self.mask as int == self.capacity - 1
        &&& self.buffer@.len() == self.capacity
        &&& self.count <= self.capacity
        &&& self.head as int == (self.tail + self.count) % counter_period()
        &&& forall|i: int| 0 <= i < self.count ==> (#[trigger] self.buffer@[self.item_slot(i)]) is Some
    }

    /// A well-formed queue never holds more items than its capacity.
    pub proof fn lemma_bounded(&self)
        requires
            self.wf(),
        ensures
            self@.items.len() <= self@.capacity,
    {
    }

    /// An empty queue whose capacity is `capacity` rounded up to a power of
    /// two.
    pub fn new(capacity: usize) -> (r: Self)
        requires
            0 < capacity <= 0x4000_0000,
        ensures
            r.wf(),
            r@.items == Seq::<T>::empty(),
            is_next_power_of_two(r@.capacity as int, capacity as int),
            r@.dropped_count == 0,
    {
        let mut actual: usize = 1;
        let ghost mut k: nat = 0;
        proof {
            lemma2_to64();
        }
        while actual < capacity
            invariant
                0 < capacity <= 0x4000_0000,
                is_power_of_two(actual as int),
                actual == 1 || actual / 2 < capacity,
                1 <= actual <= 2 * capacity,
                actual as int == pow2(k),
                k <= 30,
                actual < capacity ==> k < 30,
            decreases 2 * capacity - actual,
        {
            assert(is_power_of_two(actual * 2)) by {
                assert((actual * 2) / 2 == actual);
            }
            proof {
                vstd::arithmetic::power2::lemma_pow2_unfold(k + 1);
                lemma2_to64();
                if k + 1 == 30 {
                    assert(pow2(30) == 0x4000_0000);
                }
            }
            actual = actual * 2;
            proof {
                k = k + 1;
                if actual < capacity {
                    assert(k < 30) by {
                        lemma2_to64();
                        if k >= 30 {
                            assert(k == 30);
                        }
                    }
                }
            }
        }
        let mut buffer: Vec<Option<T>> = Vec::new();
        let mut i: usize = 0;
        while i < actual
            invariant
                i <= actual,
                buffer@.len() == i,
            decreases actual - i,
        {
            buffer.push(None);
            i = i + 1;
        }
        let r = LockFreeOrderQueue {
            buffer,
            capacity: actual,
            mask: actual - 1,
            head: 0,
            tail: 0,
            count: 0,
            dropped_count: 0,
            capacity_log2: Ghost(k),
        };
        assert(r@.items =~= Seq::<T>::empty());
        r
    }

    /// Append `item` unless the queue is full; a full queue hands the item
    /// back.
    pub fn try_enqueue(&mut self, item: T) -> (r: Result<(), T>)
        requires
            old(self).wf(),
        ensures
            final(self).wf(),
            old(self)@.items.len() >= old(self)@.capacity ==> r == Err::<(), T>(item) && final(self)@ == old(self)@,
            old(self)@.items.len() < old(self)@.capacity ==> r is Ok && final(self)@ == (QueueView {
                items: old(self)@.items.push(item),
                ..old(self)@
            }),
    {
        if self.count >= self.capacity {
            return Err(item);
        }
        let ghost pre = *self;
        let ghost k = self.capacity_log2@;
        let head = self.head;
        let index = (head & (self.mask as u64)) as usize;
        proof {
            lemma_mask_is_mod(head, k);
            lemma_wrap_keeps_slot(self.tail + self.count, k);
            assert(index as int == self.item_slot(self.count as int));
        }
        self.buffer.set(index, Some(item));
        self.head = head.wrapping_add(1);
        self.count = self.count + 1;
        proof {
            let cap = self.capacity as int;
            assert(self.head as int == (self.tail + self.count) % counter_period()) by {
                lemma_wrap_keeps_slot(pre.tail + pre.count, 64);
                vstd::arithmetic::div_mod::lemma_add_mod_noop(pre.tail + pre.count, 1, counter_period());
            }
            assert forall|i: int| 0 <= i < pre.count implies self.item_slot(i) != pre.item_slot(pre.count as int) by {
                lemma_slots_distinct(self.tail as int, i, pre.count as int, cap);
            }
            assert forall|i: int| 0 <= i < self.count implies (#[trigger] self.buffer@[self.item_slot(i)]) is Some by {
                if i < pre.count {
                    assert(self.item_slot(i) != pre.item_slot(pre.count as int));
                    assert(self.buffer@[self.item_slot(i)] == pre.buffer@[pre.item_slot(i)]);
                }
            }
            assert(self@.items =~= pre@.items.push(item)) by {
                assert forall|i: int| 0 <= i < pre.count implies self@.items[i] == pre@.items[i] by {
                    assert(self.item_slot(i) != pre.item_slot(pre.count as int));
                }
            }
        }
        Ok(())
    }

    /// Take the oldest item, if any, and let `validator` judge it. An
    /// accepted item is returned in `Ok(Some(..))`; a rejected one in `Err`,
    /// and it counts as dropped. An empty queue gives `Ok(None)`.
    pub fn try_dequeue<F: FnOnce(&T) -> bool>(&mut self, validator: F) -> (r: Result<Option<T>, T>)
        requires
            old(self).wf(),
            old(self)@.items.len() > 0 ==> validator.requires((&old(self)@.items[0],)),
        ensures
            final(self).wf(),
            old(self)@.items.len() == 0 ==> r == Ok::<Option<T>, T>(None) && final(self)@ == old(self)@,
            old(self)@.items.len() > 0 ==> {
                &&& final(self)@.items == old(self)@.items.drop_first()
                &&& final(self)@.capacity == old(self)@.capacity
                &&& match r {
                    Ok(Some(x)) => x == old(self)@.items[0] && validator.ensures((&x,), true)
                        && final(self)@.dropped_count == old(self)@.dropped_count,
                    Err(x) => x == old(self)@.items[0] && validator.ensures((&x,), false)
                        && final(self)@.dropped_count == old(self)@.dropped_count.wrapping_add(1),
                    Ok(None) => false,
                }
            },
    {
        if self.count == 0 {
            return Ok(None);
        }
        let ghost pre = *self;
        let ghost k = self.capacity_log2@;
        let tail = self.tail;
        let index = (tail & (self.mask as u64)) as usize;
        proof {
            lemma_mask_is_mod(tail, k);
            assert(index as int == pre.item_slot(0));
            assert(pre.buffer@[pre.item_slot(0)] is Some);
        }
        let item = self.buffer[index].take();
        self.tail = tail.wrapping_add(1);
        self.count = self.count - 1;
        proof {
            let cap = self.capacity as int;
            assert forall|i: int| 0 <= i < self.count implies self.item_slot(i) == pre.item_slot(
                i + 1,
            ) by {
                lemma_wrap_keeps_slot(pre.tail + 1 + i, k);
                vstd::arithmetic::div_mod::lemma_add_mod_noop(pre.tail + 1, i, counter_period());
                lemma_wrap_keeps_slot((pre.tail + 1) % counter_period() + i, k);
                assert(self.tail as int == (pre.tail + 1) % counter_period());
                assert(((pre.tail + 1) % counter_period() + i) % counter_period() == (pre.tail + 1 + i)
                    % counter_period()) by {
                    vstd::arithmetic::div_mod::lemma_add_mod_noop(pre.tail + 1, i, counter_period());
                    vstd::arithmetic::div_mod::lemma_mod_twice(pre.tail + 1, counter_period());
                    vstd::arithmetic::div_mod::lemma_small_mod(i as nat, counter_period() as nat);
                }
            }
            assert forall|i: int| 0 <= i < self.count implies (#[trigger] self.buffer@[self.item_slot(i)]) is Some by {
                assert(self.item_slot(i) == pre.item_slot(i + 1));
                lemma_slots_distinct(pre.tail as int, 0, i + 1, cap);
            }
            assert(self.head as int == (self.tail + self.count) % counter_period()) by {
                vstd::arithmetic::div_mod::lemma_add_mod_noop(pre.tail + 1, (self.count) as int, counter_period());
                vstd::arithmetic::div_mod::lemma_mod_twice(pre.tail + 1, counter_period());
            }
            assert(self@.items =~= pre@.items.drop_first()) by {
                assert forall|i: int| 0 <= i < self.count implies self@.items[i] == pre@.items[i + 1] by {
                    assert(self.item_slot(i) == pre.item_slot(i + 1));
                    lemma_slots_distinct(pre.tail as int, 0, i + 1, cap);
                }
            }
        }
        assert(self.wf());
        match item {
            Some(data) => {
                if validator(&data) {
                    Ok(Some(data))
                } else {
                    let ghost mid = *self;
                    self.dropped_count = self.dropped_count.wrapping_add(1);
                    assert forall|i: int| 0 <= i < self.count implies (#[trigger] self.buffer@[self.item_slot(
                        i,
                    )]) is Some by {
                        assert(self.item_slot(i) == mid.item_slot(i));
                        assert(mid.buffer@[mid.item_slot(i)] is Some);
                    }
                    Err(data)
                }
            },
            None => Ok(None),
        }
    }

    /// Number of queued items.
    pub fn len(&self) -> (r: usize)
        ensures
            r == self@.items.len(),
    {
        self.count
    }

    /// Whether no item is queued.
    pub fn is_empty(&self) -> (r: bool)
        ensures
            r == (self@.items.len() == 0),
    {
        self.count == 0
    }

    /// Number of items the consumer rejected.
    pub fn dropped_count(&self) -> (r: usize)
        ensures
            r == self@.dropped_count,
    {
        self.dropped_count
    }

    /// The capacity.
    pub fn capacity(&self) -> (r: usize)
        ensures
            r == self@.capacity,
    {
        self.capacity
    }
}

} // verus!
