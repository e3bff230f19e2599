//! The Doorbell Array view.
//!
//! The factory takes the MMIO base address and the capability words, computes
//! the array's base address, checks the 4-byte alignment a 32-bit register
//! requires, and binds the element count the hardware reported. The result is
//! a bounds-checked array view: it owns the address arithmetic for every slot
//! and holds the software-visible word of each register. Volatile transfer of
//! those words to and from live device memory is the embedding program's
//! task, at the addresses this view computes; the caller must also guarantee
//! that at most one view is live over a given address range, since hardware
//! memory is shared mutable state that the type system cannot see.

use vstd::prelude::*;

use crate::capability::Capability;
use crate::doorbell::Register;

verus! {

/// Construction failure: the computed base address of the register array is
/// not aligned as the 32-bit register requires. This is a fatal
/// configuration or hardware mismatch; no usable view is returned.
#[derive(Clone, Copy, Debug, PartialEq, Eq, Structural)]
pub struct AlignmentFault;

/// A bounds-checked array of doorbell registers based at a 4-byte-aligned
/// address, one 32-bit word per element.
pub struct DoorbellArray {
    base: usize,
    regs: Vec<u32>,
}

impl View for DoorbellArray {
    type V = Seq<u32>;

    /// The words the array's elements currently hold, in index order.
    closed spec fn view(&self) -> Seq<u32> {
        self.regs@
    }
}

impl DoorbellArray {
    /// The base address of the array: MMIO base plus the capability-reported
    /// byte offset.
    pub closed spec fn base_spec(&self) -> int {
        self.base as int
    }

    /// Validity: the base is aligned to the 4-byte element size and every
    /// element's address fits in the address space.
    pub closed spec fn wf(&self) -> bool {
        &&& self.base % 4 == 0
        &&& self.base + 4 * self.regs@.len() <= usize::MAX
    }

    /// Builds the array view over `count` registers based at `base`,
    /// all elements starting from the all-zero reset word. Fails with an
    /// `AlignmentFault`, and returns no view, exactly when `base` is not
    /// 4-byte aligned.
    pub fn new(base: usize, count: usize) -> (r: Result<DoorbellArray, AlignmentFault>)
        requires
            base + 4 * count <= usize::MAX,
        ensures
            r is Err <==> base % 4 != 0,
            r matches Ok(a) ==> {
                &&& a.wf()
                &&& a.base_spec() == base
                &&& a@ == Seq::new(count as nat, |i: int| 0u32)
            },
    {
        if base % 4 != 0 {
            Err(AlignmentFault)
        } else {
            let mut regs: Vec<u32> = Vec::new();
            let mut filled: usize = 0;
            while filled < count
                invariant
                    filled <= count,
                    regs@ =~= Seq::new(filled as nat, |i: int| 0u32),
                decreases count - filled,
            {
                regs.push(0u32);
                filled = filled + 1;
            }
            assert(regs@ =~= Seq::new(count as nat, |i: int| 0u32));
            Ok(DoorbellArray { base, regs })
        }
    }

    /// Returns the number of elements the array exposes.
    pub fn len(&self) -> (r: usize)
        ensures
            r == self@.len(),
    {
        self.regs.len()
    }

    /// Returns the array's base address.
    pub fn base_address(&self) -> (r: usize)
        ensures
            r == self.base_spec(),
    {
        self.base
    }

    /// Returns the address of element `index`: the base plus four bytes per
    /// preceding element.
    pub fn addr_of(&self, index: usize) -> (r: usize)
        requires
            self.wf(),
            index < self@.len(),
        ensures
            r == self.base_spec() + 4 * index,
    {
        self.base + 4 * index
    }

    /// Reads element `index` of the array.
    pub fn read_at(&self, index: usize) -> (r: Register)
        requires
            index < self@.len(),
        ensures
            r@ == self@[index as int],
    {
        Register::from_bits(self.regs[index])
    }

    /// Reads element `index`, or returns `None` for every index at or beyond
    /// the element count.
    pub fn read_at_checked(&self, index: usize) -> (r: Option<Register>)
        ensures
            index < self@.len() ==> (r matches Some(reg) && reg@ == self@[index as int]),
            index >= self@.len() ==> r is None,
    {
        if index < self.regs.len() {
            Some(self.read_at(index))
        } else {
            None
        }
    }

    /// Replaces element `index` with `reg`, leaving every other element, the
    /// base address and validity unchanged.
    pub fn write_at(&mut self, index: usize, reg: Register)
        requires
            index < old(self)@.len(),
        ensures
            final(self)@ == old(self)@.update(index as int, reg@),
            final(self).base_spec() == old(self).base_spec(),
            final(self).wf() == old(self).wf(),
    {
        let bits = reg.bits();
        self.regs.set(index, bits);
    }
}

impl Register {
    /// Creates the view of the Doorbell Array that the capability words
    /// describe: based at the MMIO base plus the reported byte offset, with
    /// one element per reported device slot, every element at its all-zero
    /// reset word. Fails with an `AlignmentFault`, and returns no view,
    /// exactly when the computed base is not 4-byte aligned.
    ///
    /// The caller must ensure that only one view of the array is created;
    /// concurrent uncoordinated access to the underlying hardware range is
    /// undefined behavior that this layer does not detect.
    pub fn new(mmio_base: usize, capability: &Capability) -> (r: Result<
        DoorbellArray,
        AlignmentFault,
    >)
        requires
            mmio_base + capability.doorbell_offset_spec() + 4 * capability.device_slots_spec()
                <= usize::MAX,
        ensures
            r is Err <==> (mmio_base + capability.doorbell_offset_spec()) % 4 != 0,
            r matches Ok(a) ==> {
                &&& a.wf()
                &&& a.base_spec() == mmio_base + capability.doorbell_offset_spec()
                &&& a@ == Seq::new(capability.device_slots_spec() as nat, |i: int| 0u32)
            },
    {
        let offset = capability.doorbell_offset() as usize;
        let count = capability.number_of_device_slots() as usize;
        DoorbellArray::new(mmio_base + offset, count)
    }
}

} // verus!
