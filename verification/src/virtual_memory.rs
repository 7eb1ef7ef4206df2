//! Virtual memory: physical memories, and logical memories whose pages are
//! mapped onto them, so that one physical memory can be seen, and changed,
//! through several logical ones.
//!
//! `Main` holds the contents of every physical memory; the memories
//! themselves are handles into it. An element of a logical memory is a
//! `Frame`: the physical memory and index it shows, and whether it may be
//! written through this mapping. Nothing here executes memory, so the
//! `execute` permissions are accepted and have no effect.
use vstd::prelude::*;
use core::marker::PhantomData;

pub mod sms;

verus! {

/// The size of a page, in bytes: mappings start at page boundaries.
pub const PAGE_SIZE: usize = 4096;

/// Where an element of a memory lives.
#[derive(Clone, Copy, Debug, PartialEq, Eq, Structural)]
pub struct Frame {
    /// The position of the element among those of all physical memories.
    pub position: usize,
    /// May the element be written through this mapping?
    pub write: bool,
    /// May the physical memory be written at all?
    pub source_write: bool,
}

/// A memory of elements of type `T`: its length, and the frame of each
/// element.
pub trait UnsafeMemory<T>: Sized {
    spec fn spec_len(&self) -> nat;

    spec fn spec_frame(&self, i: int) -> Frame;

    fn len(&self) -> (r: usize)
        ensures
            r == self.spec_len(),
    ;

    fn frame(&self, i: usize) -> (r: Frame)
        requires
            i < self.spec_len(),
        ensures
            r == self.spec_frame(i as int),
    ;

    /// The number of whole pages the memory spans.
    fn pages(&self) -> (r: usize)
        requires
            self.spec_len() * vstd::layout::size_of::<T>() <= usize::MAX,
        ensures
            r == self.spec_len() * vstd::layout::size_of::<T>() / (PAGE_SIZE as nat),
    ;
}

/// Memory whose protection can be changed.
pub trait Protect<T>: UnsafeMemory<T> {
    /// Change the protection of the whole memory; making it writable
    /// requires that what it shows can be written.
    fn set_protection(&mut self, write: bool, execute: bool)
        requires
            write ==> forall|i: int|
                0 <= i < old(self).spec_len() ==> #[trigger] old(self).spec_frame(i).source_write,
        ensures
            final(self).spec_len() == old(self).spec_len(),
            forall|i: int|
                0 <= i < old(self).spec_len() ==> #[trigger] final(self).spec_frame(i) == (Frame {
                    write,
                    ..old(self).spec_frame(i)
                }),
    ;
}

/// A physical memory: the `len` elements of `Main` from `start` on.
pub struct PhysicalMemory<T> {
    start: usize,
    len: usize,
    write: bool,
    phantom: PhantomData<T>,
}

/// A logical memory: each element shows a frame of some physical memory.
pub struct LogicalMemory<T> {
    frames: Vec<Frame>,
    phantom: PhantomData<T>,
}

impl<T> PhysicalMemory<T> {
    #[verifier::type_invariant]
    spec fn fits(self) -> bool {
        &&& self.start + self.len <= usize::MAX
        &&& self.len > 0
    }

    pub closed spec fn spec_start(&self) -> usize {
        self.start
    }

    pub closed spec fn spec_write(&self) -> bool {
        self.write
    }

    /// Does the memory lie within the address range, and hold anything?
    /// Every physical memory does.
    pub open spec fn in_range(&self) -> bool {
        &&& self.spec_start() + self.spec_len() <= usize::MAX
        &&& self.spec_len() > 0
    }
}

impl<T> UnsafeMemory<T> for PhysicalMemory<T> {
    closed spec fn spec_len(&self) -> nat {
        self.len as nat
    }

    closed spec fn spec_frame(&self, i: int) -> Frame {
        Frame { position: (self.start + i) as usize, write: self.write, source_write: self.write }
    }

    fn len(&self) -> (r: usize) {
        self.len
    }

    fn frame(&self, i: usize) -> (r: Frame) {
        proof {
            use_type_invariant(self);
        }
        Frame { position: self.start + i, write: self.write, source_write: self.write }
    }

    fn pages(&self) -> (r: usize) {
        let sz = core::mem::size_of::<T>();
        self.len * sz / PAGE_SIZE
    }
}

impl<T> UnsafeMemory<T> for LogicalMemory<T> {
    closed spec fn spec_len(&self) -> nat {
        self.frames@.len()
    }

    closed spec fn spec_frame(&self, i: int) -> Frame {
        self.frames@[i]
    }

    fn len(&self) -> (r: usize) {
        self.frames.len()
    }

    fn frame(&self, i: usize) -> (r: Frame) {
        self.frames[i]
    }

    fn pages(&self) -> (r: usize) {
        let sz = core::mem::size_of::<T>();
        self.frames.len() * sz / PAGE_SIZE
    }
}

impl<T> Protect<T> for LogicalMemory<T> {
    fn set_protection(&mut self, write: bool, execute: bool) {
        let ghost old_frames = self.frames@;
        let mut i: usize = 0;
        while i < self.frames.len()
            invariant
                i <= self.frames@.len(),
                self.frames@.len() == old_frames.len(),
                forall|j: int| 0 <= j < i ==> #[trigger] self.frames@[j] == (Frame { write, ..old_frames[j] }),
                forall|j: int| i <= j < old_frames.len() ==> #[trigger] self.frames@[j] == old_frames[j],
            decreases self.frames.len() - i,
        {
            let f = self.frames[i];
            self.frames.set(i, Frame { write, ..f });
            i = i + 1;
        }
    }
}

/// The elements of all physical memories, one after another.
pub struct Main<T> {
    data: Vec<T>,
}

impl<T> View for Main<T> {
    type V = Seq<T>;

    closed spec fn view(&self) -> Seq<T> {
        self.data@
    }
}

impl<T> Main<T> {
    /// Does every frame of `m` lie within these memories?
    pub open spec fn holds<M: UnsafeMemory<T>>(&self, m: &M) -> bool {
        forall|i: int| 0 <= i < m.spec_len() ==> #[trigger] m.spec_frame(i).position < self@.len()
    }

    /// Element `i` of `m`.
    pub open spec fn spec_get<M: UnsafeMemory<T>>(&self, m: &M, i: int) -> T {
        self@[m.spec_frame(i).position as int]
    }

    /// The contents of a physical memory.
    pub open spec fn contents(&self, p: &PhysicalMemory<T>) -> Seq<T> {
        self@.subrange(p.spec_start() as int, p.spec_start() + p.spec_len())
    }

    /// How many elements all the physical memories have together.
    pub fn len(&self) -> (r: usize)
        ensures
            r == self@.len(),
    {
        self.data.len()
    }

    /// No memories yet.
    pub fn new() -> (r: Main<T>)
        ensures
            r@ == Seq::<T>::empty(),
    {
        Main { data: Vec::new() }
    }

    /// Element `index` of `m`.
    pub fn get<M: UnsafeMemory<T>>(&self, m: &M, index: usize) -> (r: T)
        where T: Copy,
        requires
            self.holds(m),
            index < m.spec_len(),
        ensures
            r == self.spec_get(m, index as int),
    {
        let f = m.frame(index);
        self.data[f.position]
    }

    /// Set element `index` of `m`, which must be writable there; every
    /// memory that shows the same frame sees the change.
    pub fn set<M: UnsafeMemory<T>>(&mut self, m: &M, index: usize, val: T)
        requires
            old(self).holds(m),
            index < m.spec_len(),
            m.spec_frame(index as int).write,
        ensures
            final(self)@ == old(self)@.update(m.spec_frame(index as int).position as int, val),
    {
        let f = m.frame(index);
        self.data.set(f.position, val);
    }

    /// Append `len` default values (zeros) to the memories.
    fn grow(&mut self, len: usize) -> (start: usize)
        where T: Copy + Default,
        requires
            old(self)@.len() + len <= usize::MAX,
        ensures
            start == old(self)@.len(),
            final(self)@.len() == old(self)@.len() + len,
            final(self)@.subrange(0, start as int) == old(self)@,
            forall|i: int|
                start <= i < start + len ==> call_ensures(T::default, (), #[trigger] final(self)@[i]),
    {
        let start = self.data.len();
        let mut k: usize = 0;
        while k < len
            invariant
                k <= len,
                start == old(self)@.len(),
                self.data@.len() == start + k,
                start + len <= usize::MAX,
                self.data@.subrange(0, start as int) == old(self)@,
                forall|i: int|
                    start <= i < start + k ==> call_ensures(T::default, (), #[trigger] self.data@[i]),
            decreases len - k,
        {
            let d = T::default();
            self.data.push(d);
            assert(self.data@.subrange(0, start as int) =~= old(self)@);
            k = k + 1;
        }
        start
    }

    /// A new physical memory of `len` default elements (zeros).
    pub fn allocate_physical(&mut self, len: usize, write: bool, execute: bool) -> (r:
        PhysicalMemory<T>)
        where T: Copy + Default,
        requires
            len > 0,
            old(self)@.len() + len <= usize::MAX,
        ensures
            r.spec_start() == old(self)@.len(),
            r.spec_len() == len,
            r.spec_write() == write,
            final(self)@.len() == old(self)@.len() + len,
            final(self)@.subrange(0, old(self)@.len() as int) == old(self)@,
            forall|i: int|
                0 <= i < len ==> call_ensures(T::default, (), #[trigger] final(self).contents(&r)[i]),
            final(self).holds(&r),
    {
        let start = self.grow(len);
        PhysicalMemory { start, len, write, phantom: PhantomData }
    }

    /// A new logical memory of `len` default elements (zeros), not shared
    /// with any other.
    pub fn allocate_logical(&mut self, len: usize, write: bool, execute: bool) -> (r:
        LogicalMemory<T>)
        where T: Copy + Default,
        requires
            len > 0,
            old(self)@.len() + len <= usize::MAX,
        ensures
            r.spec_len() == len,
            forall|i: int|
                0 <= i < len ==> #[trigger] r.spec_frame(i) == (Frame {
                    position: (old(self)@.len() + i) as usize,
                    write,
                    source_write: true,
                }),
            final(self)@.len() == old(self)@.len() + len,
            final(self)@.subrange(0, old(self)@.len() as int) == old(self)@,
            forall|i: int|
                0 <= i < len ==> call_ensures(T::default, (), #[trigger] final(self).spec_get(&r, i)),
            final(self).holds(&r),
    {
        let start = self.grow(len);
        let mut frames: Vec<Frame> = Vec::with_capacity(len);
        let mut k: usize = 0;
        while k < len
            invariant
                k <= len,
                start + len <= usize::MAX,
                frames@.len() == k,
                forall|i: int|
                    0 <= i < k ==> #[trigger] frames@[i] == (Frame {
                        position: (start + i) as usize,
                        write,
                        source_write: true,
                    }),
            decreases len - k,
        {
            frames.push(Frame { position: start + k, write, source_write: true });
            k = k + 1;
        }
        LogicalMemory { frames, phantom: PhantomData }
    }

    /// Map `len` elements of `logical`, from `logical_offset` on, onto those
    /// of `physical` from `physical_offset` on. The offsets are at page
    /// boundaries, and the length is whole pages unless the mapping runs to
    /// the end of `logical`; writing through the mapping needs a writable
    /// `physical`.
    pub fn map(
        logical: &mut LogicalMemory<T>,
        logical_offset: usize,
        physical: &PhysicalMemory<T>,
        physical_offset: usize,
        len: usize,
        write: bool,
        execute: bool,
    )
        requires
            len > 0,
            logical_offset + len <= old(logical).spec_len(),
            physical_offset + len <= physical.spec_len(),
            (logical_offset * vstd::layout::size_of::<T>()) % (PAGE_SIZE as int) == 0,
            (physical_offset * vstd::layout::size_of::<T>()) % (PAGE_SIZE as int) == 0,
            (len * vstd::layout::size_of::<T>()) % (PAGE_SIZE as int) == 0 || logical_offset + len
                == old(logical).spec_len(),
            write ==> physical.spec_write(),
        ensures
            final(logical).spec_len() == old(logical).spec_len(),
            forall|i: int|
                0 <= i < old(logical).spec_len() ==> #[trigger] final(logical).spec_frame(i) == if logical_offset <= i < logical_offset + len {
                    Frame {
                        position: (physical.spec_start() + physical_offset + (i - logical_offset)) as usize,
                        write,
                        source_write: physical.spec_write(),
                    }
                } else {
                    old(logical).spec_frame(i)
                },
    {
        proof {
            use_type_invariant(physical);
        }
        let ghost old_frames = logical.frames@;
        let total = logical.frames.len();
        let mut k: usize = 0;
        while k < len
            invariant
                k <= len,
                logical_offset + len <= old_frames.len(),
                old_frames.len() == total,
                physical_offset + len <= physical.spec_len(),
                physical.spec_start() + physical.spec_len() <= usize::MAX,
                logical.frames@.len() == old_frames.len(),
                forall|i: int|
                    0 <= i < old_frames.len() ==> #[trigger] logical.frames@[i] == if logical_offset <= i < logical_offset + k {
                        Frame {
                            position: (physical.spec_start() + physical_offset + (i - logical_offset)) as usize,
                            write,
                            source_write: physical.spec_write(),
                        }
                    } else {
                        old_frames[i]
                    },
            decreases len - k,
        {
            let f = physical.frame(physical_offset + k);
            logical.frames.set(logical_offset + k, Frame { position: f.position, write, source_write: f.source_write });
            k = k + 1;
        }
    }

    /// A new writable physical memory holding a copy of `slice`, its length
    /// rounded up to a whole number of pages with default elements.
    pub fn dup(&mut self, slice: &[T], execute: bool) -> (r: PhysicalMemory<T>)
        where T: Copy + Default,
        requires
            slice@.len() > 0,
            slice@.len() + PAGE_SIZE <= usize::MAX,
            old(self)@.len() + slice@.len() + PAGE_SIZE <= usize::MAX,
        ensures
            r.spec_start() == old(self)@.len(),
            r.spec_len() == (slice@.len() + PAGE_SIZE - 1) / (PAGE_SIZE as int) * PAGE_SIZE,
            r.spec_write(),
            final(self)@.len() == old(self)@.len() + r.spec_len(),
            final(self)@.subrange(0, old(self)@.len() as int) == old(self)@,
            final(self).contents(&r).subrange(0, slice@.len() as int) == slice@,
            forall|i: int|
                slice@.len() <= i < r.spec_len() ==> call_ensures(T::default, (), #[trigger] final(self).contents(&r)[i]),
            final(self).holds(&r),
    {
        let pre_len = (slice.len() + PAGE_SIZE - 1) / PAGE_SIZE;
        assert(pre_len * PAGE_SIZE <= slice.len() + PAGE_SIZE) by (nonlinear_arith)
            requires pre_len == (slice.len() + PAGE_SIZE - 1) as int / (PAGE_SIZE as int);
        assert(pre_len * PAGE_SIZE >= slice.len()) by (nonlinear_arith)
            requires pre_len == (slice.len() + PAGE_SIZE - 1) as int / (PAGE_SIZE as int);
        let len = pre_len * PAGE_SIZE;
        let phys = self.allocate_physical(len, true, execute);
        proof {
            use_type_invariant(&phys);
        }
        let ghost start = phys.spec_start() as int;
        let ghost grown = self@;
        assert forall|i: int| 0 <= i < len implies call_ensures(T::default, (), #[trigger] grown[start + i]) by {
            assert(self.contents(&phys)[i] == grown[start + i]);
        }
        let mut k: usize = 0;
        while k < slice.len()
            invariant
                k <= slice@.len(),
                slice@.len() <= len,
                start == old(self)@.len(),
                start + len <= usize::MAX,
                phys.spec_start() == start,
                phys.spec_len() == len,
                phys.spec_write(),
                self@.len() == grown.len(),
                grown.len() == start + len,
                grown.subrange(0, start) == old(self)@,
                forall|i: int| 0 <= i < k ==> #[trigger] self@[start + i] == slice@[i],
                forall|i: int| 0 <= i < start ==> #[trigger] self@[i] == grown[i],
                forall|i: int| start + k <= i < start + len ==> #[trigger] self@[i] == grown[i],
                forall|i: int|
                    0 <= i < len ==> call_ensures(T::default, (), #[trigger] grown[start + i]),
            decreases slice@.len() - k,
        {
            self.set(&phys, k, slice[k]);
            k = k + 1;
        }
        assert(self@.subrange(0, start) =~= old(self)@);
        assert forall|i: int| 0 <= i < slice@.len() implies #[trigger] self.contents(&phys).subrange(
            0,
            slice@.len() as int,
        )[i] == slice@[i] by {
            assert(self@[start + i] == slice@[i]);
        }
        assert(self.contents(&phys).subrange(0, slice@.len() as int) =~= slice@);
        assert forall|i: int| slice@.len() <= i < len implies call_ensures(T::default, (), #[trigger] self.contents(&phys)[i]) by {
            assert(self.contents(&phys)[i] == self@[start + i]);
            assert(self@[start + i] == grown[start + i]);
        }
        phys
    }

    /// A copy of the contents of a physical memory.
    pub fn create_slice(&self, phys: &PhysicalMemory<T>) -> (r: Vec<T>)
        where T: Copy,
        requires
            self.holds(phys),
        ensures
            r@ == self.contents(phys),
    {
        proof {
            use_type_invariant(phys);
        }
        let mut v: Vec<T> = Vec::with_capacity(phys.len());
        let mut k: usize = 0;
        while k < phys.len()
            invariant
                k <= phys.spec_len(),
                phys.spec_len() > 0,
                phys.spec_start() + phys.spec_len() <= usize::MAX,
                self.holds(phys),
                v@.len() == k,
                forall|i: int| 0 <= i < k ==> #[trigger] v@[i] == self.spec_get(phys, i),
            decreases phys.spec_len() - k,
        {
            v.push(self.get(phys, k));
            k = k + 1;
        }
        assert(phys.spec_frame(phys.spec_len() - 1).position < self@.len());
        assert forall|i: int| 0 <= i < phys.spec_len() implies #[trigger] v@[i] == self.contents(phys)[i] by {
            assert(v@[i] == self.spec_get(phys, i));
            assert(phys.spec_frame(i).position == phys.spec_start() + i);
        }
        assert(v@ =~= self.contents(phys));
        v
    }
}

/// A physical memory that lies within the memories is the run of elements
/// from its start, and its frames are those elements in order.
pub proof fn lemma_physical_frames<T>(vm: &Main<T>, p: &PhysicalMemory<T>)
    requires
        vm.holds(p),
        p.spec_start() + p.spec_len() <= usize::MAX,
        p.spec_len() > 0,
    ensures
        p.spec_start() + p.spec_len() <= vm@.len(),
        forall|i: int|
            0 <= i < p.spec_len() ==> #[trigger] p.spec_frame(i) == (Frame {
                position: (p.spec_start() + i) as usize,
                write: p.spec_write(),
                source_write: p.spec_write(),
            }),
        forall|i: int|
            0 <= i < p.spec_len() ==> #[trigger] vm.contents(p)[i] == vm@[p.spec_start() + i],
        vm.contents(p).len() == p.spec_len(),
{
    assert(p.spec_frame(p.spec_len() - 1).position < vm@.len());
}

/// Memories only grow: whatever lay within them still does.
pub proof fn lemma_holds_grow<T, M: UnsafeMemory<T>>(before: &Main<T>, after: &Main<T>, m: &M)
    requires
        before.holds(m),
        before@.len() <= after@.len(),
    ensures
        after.holds(m),
{
}

/// A write through one memory is read back through every memory that
/// shows the same frame, and other frames keep their elements.
pub proof fn lemma_shared_write<T, M: UnsafeMemory<T>, N: UnsafeMemory<T>>(
    before: &Main<T>,
    after: &Main<T>,
    m: &M,
    i: int,
    n: &N,
    j: int,
    val: T,
)
    requires
        before.holds(m),
        before.holds(n),
        0 <= i < m.spec_len(),
        0 <= j < n.spec_len(),
        after@ == before@.update(m.spec_frame(i).position as int, val),
    ensures
        n.spec_frame(j).position == m.spec_frame(i).position ==> after.spec_get(n, j) == val,
        n.spec_frame(j).position != m.spec_frame(i).position ==> after.spec_get(n, j)
            == before.spec_get(n, j),
        after.holds(n),
{
}

} // verus!
