//! Guest linear memory, regions within it, and output slots.
use vstd::prelude::*;

verus! {

/// Why a boundary value was refused.
#[derive(Debug, Clone, Copy, PartialEq, Eq, Structural)]
pub enum MarshalError {
    /// The `(address, length)` pair does not describe memory the guest owns,
    /// or it is a null address with a positive length.
    InvalidRegion,
    /// The bytes of a region are not well-formed UTF-8.
    InvalidEncoding,
}

/// An output slot: the `(address, length)` pair the guest hands back to the
/// host. The unset slot is `(0, 0)`.
#[derive(Debug, Clone, Copy, PartialEq, Eq, Structural)]
pub struct Ptr {
    pub ptr: usize,
    pub len: usize,
}

impl Ptr {
    /// The slot as the host supplies it, before the guest writes it.
    pub fn unset() -> (r: Ptr)
        ensures
            r == (Ptr { ptr: 0, len: 0 }),
    {
        Ptr { ptr: 0, len: 0 }
    }
}

/// True when `(address, length)` describes a region the guest may read: an
/// empty region at any address, or a region of positive length that starts
/// past the null address and lies within `mem`.
pub open spec fn region_ok(mem: Seq<u8>, address: int, length: int) -> bool {
    0 <= address && 0 <= length && (length == 0 || (address != 0 && address + length <= mem.len()))
}

/// The bytes of the region `[address, address + length)` of `mem`.
pub open spec fn region_bytes(mem: Seq<u8>, address: int, length: int) -> Seq<u8> {
    if length == 0 {
        Seq::empty()
    } else {
        mem.subrange(address, address + length)
    }
}

/// A non-owning view over a region of guest memory. It borrows the memory,
/// so it cannot outlive the call that made it.
pub struct BorrowedView<'a> {
    address: usize,
    bytes: &'a [u8],
}

impl<'a> View for BorrowedView<'a> {
    type V = Seq<u8>;

    closed spec fn view(&self) -> Seq<u8> {
        self.bytes@
    }
}

impl<'a> BorrowedView<'a> {
    /// The address at which the viewed region starts.
    pub closed spec fn spec_address(&self) -> usize {
        self.address
    }

    pub fn address(&self) -> (r: usize)
        ensures
            r == self.spec_address(),
    {
        self.address
    }

    pub fn len(&self) -> (r: usize)
        ensures
            r == self@.len(),
    {
        self.bytes.len()
    }

    pub fn is_empty(&self) -> (r: bool)
        ensures
            r == (self@.len() == 0),
    {
        self.bytes.len() == 0
    }

    /// The viewed bytes.
    pub fn as_slice(&self) -> (r: &'a [u8])
        ensures
            r@ == self@,
    {
        self.bytes
    }
}

/// The guest's linear memory. Address 0 is the null address: its byte is
/// reserved, so that no region of positive length ever starts there.
pub struct GuestMemory {
    bytes: Vec<u8>,
}

impl View for GuestMemory {
    type V = Seq<u8>;

    closed spec fn view(&self) -> Seq<u8> {
        self.bytes@
    }
}

impl GuestMemory {
    /// Every memory holds the reserved null byte.
    pub open spec fn wf(&self) -> bool {
        self@.len() >= 1
    }

    /// A memory holding only the reserved null byte.
    pub fn new() -> (m: GuestMemory)
        ensures
            m.wf(),
            m@ == seq![0u8],
    {
        let mut bytes: Vec<u8> = Vec::new();
        bytes.push(0u8);
        GuestMemory { bytes }
    }

    pub fn len(&self) -> (r: usize)
        ensures
            r == self@.len(),
    {
        self.bytes.len()
    }

    /// Builds a view over `length` bytes starting at `address`. A region of
    /// positive length must lie within the memory and must not start at the
    /// null address. A zero-length region is always a valid, empty view.
    pub fn view_bytes(&self, address: usize, length: usize) -> (r: Result<BorrowedView<'_>, MarshalError>)
        ensures
            r is Ok <==> region_ok(self@, address as int, length as int),
            r is Err ==> r == Err::<BorrowedView<'_>, MarshalError>(MarshalError::InvalidRegion),
            r matches Ok(v) ==> v@ == region_bytes(self@, address as int, length as int)
                && v.spec_address() == address,
    {
        let n = self.bytes.len();
        if length == 0 {
            let bytes = vstd::slice::slice_subrange(self.bytes.as_slice(), 0, 0);
            return Ok(BorrowedView { address, bytes });
        }
        if address == 0 || address > n || length > n - address {
            return Err(MarshalError::InvalidRegion);
        }
        let bytes = vstd::slice::slice_subrange(self.bytes.as_slice(), address, address + length);
        Ok(BorrowedView { address, bytes })
    }

    /// Copies `data` into fresh storage at the end of the memory and returns
    /// its `(address, length)`. Storage placed here is never reclaimed, so the
    /// pair stays readable after the call returns.
    pub fn place(&mut self, data: &[u8]) -> (r: Ptr)
        requires
            old(self).wf(),
            old(self)@.len() + data@.len() <= usize::MAX,
        ensures
            final(self).wf(),
            final(self)@ == old(self)@ + data@,
            r == (Ptr { ptr: old(self)@.len() as usize, len: data@.len() as usize }),
    {
        let start = self.bytes.len();
        let mut i: usize = 0;
        while i < data.len()
            invariant
                0 <= i <= data@.len(),
                start == old(self)@.len(),
                self@ == old(self)@ + data@.subrange(0, i as int),
            decreases data@.len() - i,
        {
            self.bytes.push(data[i]);
            i = i + 1;
            assert(data@.subrange(0, i as int) == data@.subrange(0, i - 1) + seq![data@[i - 1]]);
        }
        assert(data@.subrange(0, data@.len() as int) == data@);
        Ptr { ptr: start, len: data.len() }
    }

    /// Places `value` in storage that outlives the call and writes its
    /// `(address, length)` into `slot`: the single write of the slot, made as
    /// the last step.
    pub fn emit_output(&mut self, value: &[u8], slot: &mut Ptr)
        requires
            old(self).wf(),
            old(self)@.len() + value@.len() <= usize::MAX,
        ensures
            final(self).wf(),
            final(self)@ == old(self)@ + value@,
            *final(slot) == (Ptr { ptr: old(self)@.len() as usize, len: value@.len() as usize }),
    {
        let placed = self.place(value);
        *slot = placed;
    }

    /// The host's read of an output slot: a view over the region it names.
    pub fn read_slot(&self, slot: &Ptr) -> (r: Result<BorrowedView<'_>, MarshalError>)
        ensures
            r is Ok <==> region_ok(self@, slot.ptr as int, slot.len as int),
            r is Err ==> r == Err::<BorrowedView<'_>, MarshalError>(MarshalError::InvalidRegion),
            r matches Ok(v) ==> v@ == region_bytes(self@, slot.ptr as int, slot.len as int),
    {
        self.view_bytes(slot.ptr, slot.len)
    }

    /// Writes `value` at `offset` within the region `[address, address + length)`,
    /// the write access that some call shapes grant over their input. The
    /// memory is left unchanged when the region is invalid or `offset` lies
    /// outside it.
    pub fn write_byte(&mut self, address: usize, length: usize, offset: usize, value: u8) -> (r: Result<(), MarshalError>)
        requires
            old(self).wf(),
        ensures
            final(self).wf(),
            r is Ok <==> region_ok(old(self)@, address as int, length as int) && offset < length,
            r is Ok ==> final(self)@ == old(self)@.update(address + offset, value),
            r is Err ==> r == Err::<(), MarshalError>(MarshalError::InvalidRegion) && final(self)@ == old(self)@,
    {
        let n = self.bytes.len();
        if offset >= length || address == 0 || address > n || length > n - address {
            return Err(MarshalError::InvalidRegion);
        }
        self.bytes.set(address + offset, value);
        Ok(())
    }
}

/// Once a value has been emitted, reading the slot's `(address, length)`
/// back from memory gives exactly the emitted bytes.
pub proof fn lemma_emitted_output_reads_back(mem: Seq<u8>, value: Seq<u8>)
    requires
        mem.len() >= 1,
    ensures
        region_ok(mem + value, mem.len() as int, value.len() as int),
        region_bytes(mem + value, mem.len() as int, value.len() as int) == value,
{
    assert((mem + value).subrange(mem.len() as int, (mem.len() + value.len()) as int) =~= value);
}

/// A zero-length region is accepted at every address, the null address
/// included, and its view is empty.
pub proof fn lemma_zero_length_region(mem: Seq<u8>, address: usize)
    ensures
        region_ok(mem, address as int, 0),
        region_bytes(mem, address as int, 0) == Seq::<u8>::empty(),
{
}

} // verus!
