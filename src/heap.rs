//! The adapter to the freeing-bump heap allocator that manages the guest's
//! heap inside its linear memory. Every operation is handed the current bytes
//! of the memory, never a cached view.
//!
//! Each allocation is preceded by an 8-byte header in guest memory: byte 4
//! has its low bit set while the block is in use, and bytes 0..4 then hold
//! the block's order (its size is `8 << order`).

use vstd::prelude::*;
use sp_allocator::FreeingBumpHeapAllocator;

verus! {

#[verifier::external_type_specification]
#[verifier::external_body]
pub struct ExFreeingBumpHeapAllocator(FreeingBumpHeapAllocator);

#[verifier::external_type_specification]
#[verifier::external_body]
pub struct ExAllocatorError(sp_allocator::Error);

/// The largest request the allocator serves: 16 MiB.
pub const MAX_ALLOCATION: u32 = 16777216;

/// The size of the header that precedes each block.
pub const HEADER_SIZE: u32 = 8;

/// The largest memory size, bump offset and byte count in use for which the
/// allocator's 32-bit arithmetic cannot overflow on any request.
pub const HEAP_LIMIT: u32 = 4278190071;

/// The size in bytes of a block of the given order.
pub open spec fn block_size(order: nat) -> nat
    decreases order,
{
    if order == 0 {
        8
    } else {
        2 * block_size((order - 1) as nat)
    }
}

/// The first order from `k` on whose block holds `size` bytes; the search
/// stops at the largest order, 21.
pub open spec fn order_from(size: nat, k: nat) -> nat
    decreases 21 - k,
{
    if k >= 21 || size <= block_size(k) {
        k
    } else {
        order_from(size, k + 1)
    }
}

/// The order of the block that serves a request of `size` bytes: the
/// smallest power of two of at least 8 bytes that holds it.
pub open spec fn order_for(size: nat) -> nat {
    order_from(size, 0)
}

/// The header bytes of a block of the given order that is in use.
pub open spec fn occupied_header(order: nat) -> Seq<u8> {
    seq![order as u8, 0u8, 0u8, 0u8, 1u8, 0u8, 0u8, 0u8]
}

/// The low 32 bits of the header at `at`, read little-endian.
pub open spec fn header_low(mem: Seq<u8>, at: int) -> nat {
    (mem[at] as nat) + (mem[at + 1] as nat) * 256 + (mem[at + 2] as nat) * 65536 + (mem[at + 3] as nat)
        * 16777216
}

/// Whether `ptr` points just past a header, inside `mem`, that marks a block
/// in use of a valid order.
pub open spec fn holds_live_block(mem: Seq<u8>, ptr: u32) -> bool {
    &&& 8 <= ptr <= mem.len()
    &&& mem[ptr - 4] % 2 == 1
    &&& header_low(mem, ptr - 8) < 22
}

/// The order written in the header before `ptr`.
pub open spec fn live_order(mem: Seq<u8>, ptr: u32) -> nat {
    header_low(mem, ptr - 8)
}

/// Whether two memories of one length agree outside `[lo, hi)`.
pub open spec fn same_outside(m0: Seq<u8>, m1: Seq<u8>, lo: int, hi: int) -> bool {
    &&& m0.len() == m1.len()
    &&& forall|i: int| 0 <= i < m0.len() && !(lo <= i < hi) ==> m0[i] == m1[i]
}

/// Whether the allocator has failed once; it then refuses every request.
pub uninterp spec fn heap_poisoned(a: FreeingBumpHeapAllocator) -> bool;

/// The bytes the allocator counts as in use, headers included.
pub uninterp spec fn heap_used(a: FreeingBumpHeapAllocator) -> nat;

/// The offset at which the allocator carves its next fresh block.
pub uninterp spec fn heap_bumper(a: FreeingBumpHeapAllocator) -> nat;

/// The header offset of the first block on the allocator's free list of
/// the given order, or `None` where that list is empty.
pub uninterp spec fn free_head(a: FreeingBumpHeapAllocator, order: nat) -> Option<nat>;

/// Whether the first block on each free list lies within a memory of
/// `mem_len` bytes: the condition the allocator asserts before it reuses one.
pub open spec fn heads_fit(a: FreeingBumpHeapAllocator, mem_len: nat) -> bool {
    forall|o: nat|
        o < 22 ==> (#[trigger] free_head(a, o) matches Some(h) ==> h + block_size(o) + 8 <= mem_len)
}

/// Whether two allocator states have the same free-list heads.
pub open spec fn same_heads(a: FreeingBumpHeapAllocator, b: FreeingBumpHeapAllocator) -> bool {
    forall|o: nat| #[trigger] free_head(a, o) == free_head(b, o)
}

/// Relies on `FreeingBumpHeapAllocator::new`: the bump offset starts at
/// `heap_base` rounded up to a multiple of 8, the free lists are empty and
/// nothing is in use.
#[verifier::external_body]
fn heap_new(heap_base: u32) -> (r: FreeingBumpHeapAllocator)
    requires
        heap_base <= u32::MAX - 7,
    ensures
        !heap_poisoned(r),
        heap_used(r) == 0,
        heap_bumper(r) == (heap_base as int + 7) / 8 * 8,
        forall|o: nat| #[trigger] free_head(r, o) is None,
{
    FreeingBumpHeapAllocator::new(heap_base)
}

/// Relies on `FreeingBumpHeapAllocator::allocate` over a byte slice: a
/// request above 16 MiB or on a poisoned allocator fails; a block comes from
/// the free list of its order or from the bump offset, which must stay within
/// the memory; the free lists are touched only when the list of the
/// block's order is not empty, and a fresh block starts at the bump offset;
/// the block's header is written as in use; an error poisons the allocator
/// and writes nothing. It asserts that a free-list head fits the
/// memory, and its sums stay in 32 bits only under the bounds required here.
#[verifier::external_body]
fn heap_allocate(a: &mut FreeingBumpHeapAllocator, mem: &mut [u8], size: u32) -> (r: Result<
    u32,
    sp_allocator::Error,
>)
    requires
        old(mem)@.len() <= u32::MAX,
        heap_bumper(*old(a)) <= HEAP_LIMIT,
        heap_used(*old(a)) <= HEAP_LIMIT,
        heads_fit(*old(a), old(mem)@.len()),
    ensures
        heap_poisoned(*old(a)) ==> r is Err,
        size > MAX_ALLOCATION ==> r is Err,
        !heap_poisoned(*old(a)) && size <= MAX_ALLOCATION && free_head(*old(a), order_for(size as nat))
            is None && heap_bumper(*old(a)) + block_size(order_for(size as nat)) + 8 <= old(mem)@.len()
            ==> r is Ok,
        r is Err ==> heap_poisoned(*final(a)) && final(mem)@ == old(mem)@ && heap_used(*final(a))
            == heap_used(*old(a)) && heap_bumper(*final(a)) == heap_bumper(*old(a))
            && same_heads(*old(a), *final(a)),
        free_head(*old(a), order_for(size as nat)) is None ==> same_heads(*old(a), *final(a)),
        r matches Ok(q) ==> (free_head(*old(a), order_for(size as nat)) is None ==> q == heap_bumper(
            *old(a),
        ) + 8 && heap_bumper(*final(a)) == q + block_size(order_for(size as nat))),
        r matches Ok(q) ==> (free_head(*old(a), order_for(size as nat)) is Some ==> q == free_head(
            *old(a),
            order_for(size as nat),
        )->Some_0 + 8 && heap_bumper(*final(a)) == heap_bumper(*old(a))),
        r matches Ok(q) ==> {
            &&& 8 <= q
            &&& q + block_size(order_for(size as nat)) <= old(mem)@.len()
            &&& final(mem)@.subrange(q - 8, q as int) == occupied_header(order_for(size as nat))
            &&& same_outside(old(mem)@, final(mem)@, q - 8, q as int)
            &&& heap_used(*final(a)) == heap_used(*old(a)) + block_size(order_for(size as nat)) + 8
            &&& !heap_poisoned(*final(a))
            &&& size <= MAX_ALLOCATION
            &&& heap_bumper(*final(a)) == heap_bumper(*old(a)) || heap_bumper(*final(a))
                <= old(mem)@.len()
        },
{
    a.allocate(mem, size).map(u32::from)
}

/// Relies on `FreeingBumpHeapAllocator::deallocate` over a byte slice: it
/// fails on a poisoned allocator, and where the 8 bytes before `ptr` are not
/// a header of a block in use; otherwise it rewrites that header as free
/// (its upper four bytes zero), puts the block at the head of its order's
/// free list (leaving the other lists alone) and takes its size off the bytes in use, failing where that
/// would go below zero. An error poisons the allocator.
#[verifier::external_body]
fn heap_deallocate(a: &mut FreeingBumpHeapAllocator, mem: &mut [u8], ptr: u32) -> (r: Result<
    (),
    sp_allocator::Error,
>)
    requires
        old(mem)@.len() <= u32::MAX,
    ensures
        final(mem)@.len() == old(mem)@.len(),
        heap_poisoned(*old(a)) ==> r is Err,
        !holds_live_block(old(mem)@, ptr) ==> r is Err,
        !heap_poisoned(*old(a)) && holds_live_block(old(mem)@, ptr) && heap_used(*old(a))
            >= block_size(live_order(old(mem)@, ptr)) + 8 ==> r is Ok,
        r is Err ==> heap_poisoned(*final(a)) && heap_used(*final(a)) == heap_used(*old(a)),
        r is Ok ==> {
            &&& holds_live_block(old(mem)@, ptr)
            &&& final(mem)@.subrange(ptr - 4, ptr as int) == seq![0u8, 0u8, 0u8, 0u8]
            &&& same_outside(old(mem)@, final(mem)@, ptr - 8, ptr as int)
            &&& heap_used(*final(a)) + block_size(live_order(old(mem)@, ptr)) + 8 == heap_used(
                *old(a),
            )
            &&& !heap_poisoned(*final(a))
        },
        heap_bumper(*final(a)) == heap_bumper(*old(a)),
        forall|o: nat|
            (!holds_live_block(old(mem)@, ptr) || o != live_order(old(mem)@, ptr)) ==> #[trigger]
            free_head(*final(a), o) == free_head(*old(a), o),
        holds_live_block(old(mem)@, ptr) ==> free_head(*final(a), live_order(old(mem)@, ptr))
            == free_head(*old(a), live_order(old(mem)@, ptr)) || free_head(
            *final(a),
            live_order(old(mem)@, ptr),
        ) == Some((ptr - 8) as nat),
        r is Ok ==> free_head(*final(a), live_order(old(mem)@, ptr)) == Some((ptr - 8) as nat),
{
    a.deallocate(mem, ptr.into())
}

/// Block sizes grow with the order.
pub proof fn lemma_block_size_grows(a: nat, b: nat)
    requires
        a <= b,
    ensures
        8 <= block_size(a) <= block_size(b),
    decreases b - a,
{
    if a < b {
        lemma_block_size_grows(a, (b - 1) as nat);
    } else {
        lemma_block_size_positive(a);
    }
}

proof fn lemma_block_size_positive(a: nat)
    ensures
        8 <= block_size(a),
    decreases a,
{
    if a > 0 {
        lemma_block_size_positive((a - 1) as nat);
    }
}

/// The order found from `k` on lies in `k..=21`, and its block holds every
/// request of at most 16 MiB.
pub proof fn lemma_order_from(size: nat, k: nat)
    requires
        k <= 21,
    ensures
        k <= order_from(size, k) <= 21,
        size <= MAX_ALLOCATION ==> size <= block_size(order_from(size, k)),
        block_size(order_from(size, k)) <= MAX_ALLOCATION,
    decreases 21 - k,
{
    reveal_with_fuel(block_size, 22);
    if k < 21 && size > block_size(k) {
        lemma_order_from(size, k + 1);
    } else {
        lemma_block_size_grows(k, 21);
    }
}

/// The size of the block that serves a request of `size` bytes.
fn block_for(size: u32) -> (r: u32)
    requires
        size <= MAX_ALLOCATION,
    ensures
        r == block_size(order_for(size as nat)),
        size <= r <= MAX_ALLOCATION,
{
    let mut k: u32 = 0;
    let mut b: u32 = 8;
    proof {
        reveal_with_fuel(block_size, 1);
        lemma_order_from(size as nat, 0);
    }
    while k < 21 && size > b
        invariant
            k <= 21,
            b == block_size(k as nat),
            order_from(size as nat, k as nat) == order_for(size as nat),
        decreases 21 - k,
    {
        proof {
            lemma_block_size_grows(k as nat, 20);
            reveal_with_fuel(block_size, 22);
        }
        b = b * 2;
        k = k + 1;
    }
    proof {
        lemma_order_from(size as nat, 0);
    }
    b
}

/// The size of the block before `ptr`, from its header.
fn live_block_size(mem: &[u8], ptr: u32) -> (r: u32)
    requires
        holds_live_block(mem@, ptr),
    ensures
        r == block_size(live_order(mem@, ptr)),
        r <= MAX_ALLOCATION,
{
    let at = (ptr - 8) as usize;
    let order: u32 = mem[at] as u32 + (mem[at + 1] as u32) * 256 + (mem[at + 2] as u32) * 65536
        + (mem[at + 3] as u32) * 16777216;
    let mut k: u32 = 0;
    let mut b: u32 = 8;
    while k < order
        invariant
            order < 22,
            k <= order,
            b == block_size(k as nat),
        decreases order - k,
    {
        proof {
            lemma_block_size_grows(k as nat, 20);
            reveal_with_fuel(block_size, 22);
        }
        b = b * 2;
        k = k + 1;
    }
    proof {
        lemma_block_size_grows(order as nat, 21);
        reveal_with_fuel(block_size, 22);
    }
    b
}

/// Why the heap refused a request.
#[derive(Clone, Copy, Debug, PartialEq, Eq, Structural)]
pub enum HeapFault {
    /// No block could be handed out.
    AllocationFailed,
    /// The pointer does not name a block in use.
    DeallocationFailed,
}

/// The guest heap: the outside allocator, with the pointers it handed out
/// and not yet took back, and a count of the bytes it holds in use so that
/// its arithmetic is kept within 32 bits.
pub struct HeapAllocator {
    inner: FreeingBumpHeapAllocator,
    used: u32,
    live: Vec<u32>,
}

/// What a successful allocation of `size` bytes at `q` did to memory.
pub open spec fn allocation_made(m0: Seq<u8>, m1: Seq<u8>, size: u32, q: u32) -> bool {
    &&& 8 <= q
    &&& size <= MAX_ALLOCATION
    &&& q + size <= m0.len()
    &&& q + block_size(order_for(size as nat)) <= m0.len()
    &&& m1.subrange(q - 8, q as int) == occupied_header(order_for(size as nat))
    &&& same_outside(m0, m1, q - 8, q as int)
}

/// What a successful release of the block at `ptr` did to memory.
pub open spec fn release_made(m0: Seq<u8>, m1: Seq<u8>, ptr: u32) -> bool {
    &&& holds_live_block(m0, ptr)
    &&& m1.subrange(ptr - 4, ptr as int) == seq![0u8, 0u8, 0u8, 0u8]
    &&& same_outside(m0, m1, ptr - 8, ptr as int)
}

/// Whether a request of `size` bytes is owed a block: the heap is healthy,
/// the free list of the request's order is empty, and a fresh block fits
/// between the bump offset and the end of a memory of `len` bytes.
pub open spec fn room_for(h: HeapAllocator, len: nat, size: u32) -> bool {
    &&& !h.poisoned()
    &&& size <= MAX_ALLOCATION
    &&& len <= HEAP_LIMIT
    &&& h.used_bytes() <= HEAP_LIMIT
    &&& h.head(order_for(size as nat)) is None
    &&& h.bump() + block_size(order_for(size as nat)) + 8 <= len
}

/// `h1` and `m1` are what a successful `allocate` of `n` bytes at `q` left
/// from `h0` and `m0`.
pub open spec fn allocated(h0: HeapAllocator, m0: Seq<u8>, n: u32, h1: HeapAllocator, m1: Seq<u8>, q: u32) -> bool {
    &&& m0.len() <= HEAP_LIMIT
    &&& allocation_made(m0, m1, n, q)
    &&& !h1.poisoned()
    &&& h1.used_bytes() == h0.used_bytes() + block_size(order_for(n as nat)) + 8
    &&& forall|p: u32| #[trigger] h1.is_live(p) == (h0.is_live(p) || p == q)
}

/// Whether releasing the block at `ptr` is owed to succeed.
pub open spec fn can_release(h: HeapAllocator, m: Seq<u8>, ptr: u32) -> bool {
    &&& !h.poisoned()
    &&& h.is_live(ptr)
    &&& holds_live_block(m, ptr)
    &&& ptr + block_size(live_order(m, ptr)) <= m.len()
    &&& m.len() <= HEAP_LIMIT
    &&& h.used_bytes() >= block_size(live_order(m, ptr)) + 8
}

/// `h1` and `m1` are what a successful `deallocate` of `ptr` left from `h0`
/// and `m0`.
pub open spec fn released(h0: HeapAllocator, m0: Seq<u8>, ptr: u32, h1: HeapAllocator, m1: Seq<u8>) -> bool {
    &&& release_made(m0, m1, ptr)
    &&& !h1.poisoned()
    &&& h1.used_bytes() + block_size(live_order(m0, ptr)) + 8 == h0.used_bytes()
    &&& forall|p: u32| #[trigger] h1.is_live(p) == (h0.is_live(p) && p != ptr)
}

/// A block can be released right after it was allocated; once released it
/// is no longer handed out, so releasing it again fails.
pub proof fn lemma_release_after_allocate(
    h0: HeapAllocator,
    m0: Seq<u8>,
    n: u32,
    q: u32,
    h1: HeapAllocator,
    m1: Seq<u8>,
    h2: HeapAllocator,
    m2: Seq<u8>,
)
    requires
        allocated(h0, m0, n, h1, m1, q),
    ensures
        can_release(h1, m1, q),
        released(h1, m1, q, h2, m2) ==> !h2.is_live(q) && !can_release(h2, m2, q),
{
    lemma_order_from(n as nat, 0);
    let o = order_for(n as nat);
    let hdr = m1.subrange(q - 8, q as int);
    assert(hdr[0] == m1[q - 8]);
    assert(hdr[1] == m1[q - 7]);
    assert(hdr[2] == m1[q - 6]);
    assert(hdr[3] == m1[q - 5]);
    assert(hdr[4] == m1[q - 4]);
    assert(live_order(m1, q) == o);
    assert(h1.is_live(q));
    if released(h1, m1, q, h2, m2) {
        assert(!h2.is_live(q));
    }
}

/// A heap whose free-list heads fit a memory still fits it once the memory
/// has grown.
pub proof fn lemma_fits_as_memory_grows(h: HeapAllocator, n1: nat, n2: nat)
    requires
        h.fits(n1),
        n1 <= n2,
    ensures
        h.fits(n2),
{
}

proof fn lemma_same_heads_fit(a: FreeingBumpHeapAllocator, b: FreeingBumpHeapAllocator, n: nat)
    requires
        same_heads(a, b),
        heads_fit(a, n),
    ensures
        heads_fit(b, n),
{
    assert forall|o: nat| o < 22 implies (#[trigger] free_head(b, o) matches Some(h) ==> h
        + block_size(o) + 8 <= n) by {
        assert(free_head(a, o) == free_head(b, o));
    }
}

proof fn lemma_push_contains(s: Seq<u32>, a: u32, p: u32)
    ensures
        s.push(a).contains(p) == (s.contains(p) || p == a),
{
    let t = s.push(a);
    if s.contains(p) {
        let k = choose|k: int| 0 <= k < s.len() && #[trigger] s[k] == p;
        assert(t[k] == p);
    }
    if p == a {
        assert(t[s.len() as int] == p);
    }
    if t.contains(p) {
        let k = choose|k: int| 0 <= k < t.len() && #[trigger] t[k] == p;
        if k < s.len() {
            assert(s[k] == p);
        }
    }
}

/// Whether `v` holds `x`.
fn holds(v: &Vec<u32>, x: u32) -> (r: bool)
    ensures
        r == v@.contains(x),
{
    let mut i: usize = 0;
    while i < v.len()
        invariant
            i <= v@.len(),
            forall|j: int| 0 <= j < i ==> v@[j] != x,
        decreases v@.len() - i,
    {
        if v[i] == x {
            return true;
        }
        i = i + 1;
    }
    false
}

/// The entries of `v` other than `x`.
fn without(v: &Vec<u32>, x: u32) -> (r: Vec<u32>)
    ensures
        forall|p: u32| #[trigger] r@.contains(p) == (v@.contains(p) && p != x),
{
    let mut r: Vec<u32> = Vec::new();
    let mut i: usize = 0;
    while i < v.len()
        invariant
            i <= v@.len(),
            forall|p: u32| #[trigger] r@.contains(p) == (v@.take(i as int).contains(p) && p != x),
        decreases v@.len() - i,
    {
        let ghost before = r@;
        let ghost s0 = v@.take(i as int);
        let ghost s = v@.take(i + 1);
        if v[i] != x {
            r.push(v[i]);
        }
        proof {
            assert(s =~= s0.push(v@[i as int]));
            assert forall|p: u32| #[trigger] r@.contains(p) == (s.contains(p) && p != x) by {
                if v@[i as int] != x {
                    assert(r@ == before.push(v@[i as int]));
                    lemma_push_contains(before, v@[i as int], p);
                } else {
                    assert(r@ == before);
                }
                lemma_push_contains(s0, v@[i as int], p);
            }
        }
        i = i + 1;
    }
    assert(v@.take(v@.len() as int) =~= v@);
    r
}

impl HeapAllocator {
    /// The allocator's state is consistent with the count kept beside it.
    pub closed spec fn wf(&self) -> bool {
        &&& self.used == heap_used(self.inner)
        &&& heap_used(self.inner) <= u32::MAX
        &&& heap_bumper(self.inner) <= HEAP_LIMIT
    }

    /// Whether the allocator has failed once and refuses all requests.
    pub closed spec fn poisoned(&self) -> bool {
        heap_poisoned(self.inner)
    }

    /// The bytes in use, headers included.
    pub closed spec fn used_bytes(&self) -> nat {
        heap_used(self.inner)
    }

    /// The offset at which the next fresh block's header goes.
    pub closed spec fn bump(&self) -> nat {
        heap_bumper(self.inner)
    }

    /// The header offset of the first free block of the given order.
    pub closed spec fn head(&self, order: nat) -> Option<nat> {
        free_head(self.inner, order)
    }

    /// Whether `ptr` was handed out by `allocate` and not yet released.
    pub closed spec fn is_live(&self, ptr: u32) -> bool {
        self.live@.contains(ptr)
    }

    /// Whether the free-list heads lie within `mem_len` bytes.
    pub closed spec fn fits(&self, mem_len: nat) -> bool {
        heads_fit(self.inner, mem_len)
    }

    /// A heap whose first block starts at `heap_base` (rounded up to 8).
    pub fn new(heap_base: u32) -> (r: Self)
        requires
            heap_base <= HEAP_LIMIT - 7,
        ensures
            r.wf(),
            !r.poisoned(),
            r.used_bytes() == 0,
            r.bump() == (heap_base as int + 7) / 8 * 8,
            forall|o: nat| #[trigger] r.head(o) is None,
            forall|p: u32| !#[trigger] r.is_live(p),
            forall|len: nat| r.fits(len),
    {
        let inner = heap_new(heap_base);
        assert((heap_base as int + 7) / 8 * 8 <= heap_base as int + 7) by (nonlinear_arith);
        let r = HeapAllocator { inner, used: 0, live: Vec::new() };
        assert(forall|o: nat| #[trigger] r.head(o) == free_head(inner, o));
        r
    }

    /// Allocates `size` bytes in `mem` and returns the block's offset.
    pub fn allocate(&mut self, mem: &mut [u8], size: u32) -> (r: Result<u32, HeapFault>)
        requires
            old(self).wf(),
            old(self).fits(old(mem)@.len()),
        ensures
            final(self).wf(),
            final(mem)@.len() == old(mem)@.len(),
            old(self).poisoned() ==> r is Err,
            size > MAX_ALLOCATION ==> r is Err,
            old(mem)@.len() > HEAP_LIMIT ==> r is Err,
            room_for(*old(self), old(mem)@.len(), size) ==> r is Ok,
            r is Err ==> r == Err::<u32, HeapFault>(HeapFault::AllocationFailed) && final(mem)@
                == old(mem)@ && final(self).used_bytes() == old(self).used_bytes() && forall|p: u32|
                #[trigger] final(self).is_live(p) == old(self).is_live(p),
            r is Err || old(self).head(order_for(size as nat)) is None ==> final(self).fits(
                old(mem)@.len(),
            ),
            r matches Ok(q) ==> (old(self).head(order_for(size as nat)) is None ==> q == old(self).bump()
                + 8 && final(self).bump() == q + block_size(order_for(size as nat))),
            r matches Ok(q) ==> allocated(*old(self), old(mem)@, size, *final(self), final(mem)@, q),
    {
        if mem.len() > HEAP_LIMIT as usize || self.used > HEAP_LIMIT {
            return Err(HeapFault::AllocationFailed);
        }
        let ghost h0 = *self;
        match heap_allocate(&mut self.inner, mem, size) {
            Ok(q) => {
                let block = block_for(size);
                self.used = self.used + block + 8;
                self.live.push(q);
                proof {
                    assert forall|p: u32| #[trigger] self.is_live(p) == (h0.is_live(p) || p == q) by {
                        assert(self.live@ == h0.live@.push(q));
                        if h0.live@.contains(p) {
                            let k = choose|k: int| 0 <= k < h0.live@.len() && #[trigger] h0.live@[k] == p;
                            assert(self.live@[k] == p);
                        }
                        if p == q {
                            assert(self.live@[self.live@.len() - 1] == q);
                        }
                    }
                    if free_head(h0.inner, order_for(size as nat)) is None {
                        lemma_same_heads_fit(h0.inner, self.inner, mem@.len());
                    }
                }
                Ok(q)
            },
            Err(_) => {
                proof {
                    lemma_same_heads_fit(h0.inner, self.inner, mem@.len());
                }
                Err(HeapFault::AllocationFailed)
            },
        }
    }

    /// Releases the block at `ptr`. A pointer that `allocate` did not hand
    /// out, or that was released already, is refused, as is one whose header
    /// no longer describes a block that lies within `mem`.
    pub fn deallocate(&mut self, mem: &mut [u8], ptr: u32) -> (r: Result<(), HeapFault>)
        requires
            old(self).wf(),
        ensures
            final(self).wf(),
            final(mem)@.len() == old(mem)@.len(),
            old(self).fits(old(mem)@.len()) ==> final(self).fits(old(mem)@.len()),
            old(self).poisoned() ==> r is Err,
            !old(self).is_live(ptr) ==> r is Err,
            !holds_live_block(old(mem)@, ptr) ==> r is Err,
            old(mem)@.len() > HEAP_LIMIT ==> r is Err,
            holds_live_block(old(mem)@, ptr) && ptr + block_size(live_order(old(mem)@, ptr))
                > old(mem)@.len() ==> r is Err,
            can_release(*old(self), old(mem)@, ptr) ==> r is Ok,
            r is Err ==> r == Err::<(), HeapFault>(HeapFault::DeallocationFailed) && final(self).used_bytes() == old(self).used_bytes()
                && forall|p: u32| #[trigger] final(self).is_live(p) == old(self).is_live(p),
            r is Ok ==> released(*old(self), old(mem)@, ptr, *final(self), final(mem)@),
    {
        if !holds(&self.live, ptr) || mem.len() > HEAP_LIMIT as usize || ptr < 8 || ptr as usize
            > mem.len() || mem[ptr as usize - 4] % 2 != 1 {
            return Err(HeapFault::DeallocationFailed);
        }
        let at = (ptr - 8) as usize;
        let order: u32 = mem[at] as u32 + (mem[at + 1] as u32) * 256 + (mem[at + 2] as u32) * 65536
            + (mem[at + 3] as u32) * 16777216;
        if order >= 22 {
            return Err(HeapFault::DeallocationFailed);
        }
        let block = live_block_size(mem, ptr);
        if ptr as u64 + block as u64 > mem.len() as u64 {
            return Err(HeapFault::DeallocationFailed);
        }
        let ghost h0 = *self;
        let ghost m0 = mem@;
        match heap_deallocate(&mut self.inner, mem, ptr) {
            Ok(()) => {
                self.used = self.used - block - 8;
                self.live = without(&self.live, ptr);
                Ok(())
            },
            Err(_) => {
                Err(HeapFault::DeallocationFailed)
            },
        }
    }
}

} // verus!
