//! Accessors for one value in the memory of a process, found through a
//! chain of pointer offsets.

use vstd::prelude::*;
use crate::access::{
    bytes_view, copied, copy_address, put, put_address, resolution, resolve_address, CopyAddress,
    PutAddress,
};
use crate::architecture::Address;
use crate::error::MemoryError;
use crate::image::MemoryImage;

verus! {

/// A region of memory in a running program that can be read and written as a
/// value of type `T`.
pub trait Memory<T> {
    /// Replaces the offset chain that leads to the value.
    fn set_offset(&mut self, new_offsets: Vec<Address>);

    /// The address of the value: the offset chain, resolved now.
    fn get_offset(&self) -> Result<Address, MemoryError>;

    /// Resolves the address and reads the value there.
    fn read(&self) -> Result<T, MemoryError>;

    /// Resolves the address and writes `value` there.
    fn write(&mut self, value: &T) -> Result<(), MemoryError>;
}

/// What reading `length` bytes at the end of the chain `offsets` may give:
/// the failure of the resolution, or what the read at the resolved address
/// gives.
pub open spec fn read_through<S: CopyAddress>(
    source: &S,
    offsets: Seq<Address>,
    length: nat,
    outcome: Result<Seq<u8>, MemoryError>,
) -> bool {
    exists|at: Result<Address, MemoryError>| #[trigger]
        resolution(source, offsets, at) && match at {
            Ok(a) => copied(source, a, length, outcome),
            Err(e) => outcome == Err::<Seq<u8>, MemoryError>(e),
        }
}

/// What writing `bytes` at the end of the chain `offsets` may do: fail as
/// the resolution fails and change nothing, or do what the write at the
/// resolved address does.
pub open spec fn write_through<S: CopyAddress + PutAddress>(
    before: &S,
    after: &S,
    offsets: Seq<Address>,
    bytes: Seq<u8>,
    outcome: Result<(), MemoryError>,
) -> bool {
    exists|at: Result<Address, MemoryError>| #[trigger]
        resolution(before, offsets, at) && match at {
            Ok(a) => put(before, after, a, bytes, outcome),
            Err(e) => outcome == Err::<(), MemoryError>(e) && after == before,
        }
}

/// A value of `length` bytes in the memory of the process `process`.
pub struct DataMember<S> {
    pub offsets: Vec<Address>,
    pub process: S,
    pub length: usize,
}

impl<S: CopyAddress + PutAddress> DataMember<S> {
    /// An accessor for a value of `length` bytes, with no offsets yet.
    pub fn new(process: S, length: usize) -> (r: Self)
        ensures
            r.offsets@.len() == 0,
            r.process == process,
            r.length == length,
    {
        DataMember { offsets: Vec::new(), process, length }
    }

    /// An accessor for a value of `length` bytes at the end of `offsets`.
    pub fn new_offset(process: S, offsets: Vec<Address>, length: usize) -> (r: Self)
        ensures
            r.offsets == offsets,
            r.process == process,
            r.length == length,
    {
        DataMember { offsets, process, length }
    }
}

impl<S: CopyAddress + PutAddress> Memory<Vec<u8>> for DataMember<S> {
    fn set_offset(&mut self, new_offsets: Vec<Address>)
        ensures
            final(self).offsets == new_offsets,
            final(self).process == old(self).process,
            final(self).length == old(self).length,
    {
        self.offsets = new_offsets;
    }

    fn get_offset(&self) -> (r: Result<Address, MemoryError>)
        ensures
            resolution(&self.process, self.offsets@, r),
            self.offsets@.len() == 0 ==> r == Err::<Address, MemoryError>(MemoryError::InvalidOffsetChain),
            self.offsets@.len() == 1 ==> r == Ok::<Address, MemoryError>(self.offsets@[0]),
    {
        resolve_address(&self.process, self.offsets.as_slice())
    }

    /// Reads the `length` bytes of the value.
    fn read(&self) -> (r: Result<Vec<u8>, MemoryError>)
        ensures
            read_through(&self.process, self.offsets@, self.length as nat, bytes_view(r)),
            self.offsets@.len() == 0 ==> r == Err::<Vec<u8>, MemoryError>(MemoryError::InvalidOffsetChain),
            r is Ok ==> r->Ok_0@.len() == self.length,
    {
        let at = resolve_address(&self.process, self.offsets.as_slice());
        match at {
            Ok(a) => copy_address(a, self.length, &self.process),
            Err(e) => Err(e),
        }
    }

    /// Writes `value` in place of the value. It must be `length` bytes long:
    /// any other buffer is refused with `InvalidBufferLength` before anything
    /// is resolved or written.
    fn write(&mut self, value: &Vec<u8>) -> (r: Result<(), MemoryError>)
        ensures
            final(self).offsets == old(self).offsets,
            final(self).length == old(self).length,
            value@.len() != old(self).length ==> r == Err::<(), MemoryError>(
                MemoryError::InvalidBufferLength,
            ) && final(self).process == old(self).process,
            value@.len() == old(self).length ==> write_through(
                &old(self).process,
                &final(self).process,
                old(self).offsets@,
                value@,
                r,
            ),
    {
        if value.len() != self.length {
            return Err(MemoryError::InvalidBufferLength);
        }
        let at = resolve_address(&self.process, self.offsets.as_slice());
        match at {
            Ok(a) => put_address(a, value.as_slice(), &mut self.process),
            Err(e) => Err(e),
        }
    }
}

/// A value of `length` bytes in the memory of the running process itself.
/// It holds the offset chain only: the address space is handed to each call.
pub struct LocalMember {
    pub offsets: Vec<Address>,
    pub length: usize,
}

impl LocalMember {
    /// An accessor for a value of `length` bytes, with no offsets yet.
    pub fn new(length: usize) -> (r: Self)
        ensures
            r.offsets@.len() == 0,
            r.length == length,
    {
        LocalMember { offsets: Vec::new(), length }
    }

    /// An accessor for a value of `length` bytes at the end of `offsets`.
    pub fn new_offset(offsets: Vec<Address>, length: usize) -> (r: Self)
        ensures
            r.offsets == offsets,
            r.length == length,
    {
        LocalMember { offsets, length }
    }

    /// Replaces the offset chain that leads to the value.
    pub fn set_offset(&mut self, new_offsets: Vec<Address>)
        ensures
            final(self).offsets == new_offsets,
            final(self).length == old(self).length,
    {
        self.offsets = new_offsets;
    }

    /// The address of the value in `space`: the offset chain, resolved now.
    pub fn get_offset<L: CopyAddress>(&self, space: &L) -> (r: Result<Address, MemoryError>)
        ensures
            resolution(space, self.offsets@, r),
            self.offsets@.len() == 0 ==> r == Err::<Address, MemoryError>(MemoryError::InvalidOffsetChain),
            self.offsets@.len() == 1 ==> r == Ok::<Address, MemoryError>(self.offsets@[0]),
    {
        resolve_address(space, self.offsets.as_slice())
    }

    /// Reads the `length` bytes of the value from `space`.
    pub fn read<L: CopyAddress>(&self, space: &L) -> (r: Result<Vec<u8>, MemoryError>)
        ensures
            read_through(space, self.offsets@, self.length as nat, bytes_view(r)),
            self.offsets@.len() == 0 ==> r == Err::<Vec<u8>, MemoryError>(MemoryError::InvalidOffsetChain),
            r is Ok ==> r->Ok_0@.len() == self.length,
    {
        let at = resolve_address(space, self.offsets.as_slice());
        match at {
            Ok(a) => copy_address(a, self.length, space),
            Err(e) => Err(e),
        }
    }

    /// Writes `value` into `space` in place of the value. It must be
    /// `length` bytes long: any other buffer is refused with
    /// `InvalidBufferLength` before anything is resolved or written.
    pub fn write<L: CopyAddress + PutAddress>(&self, space: &mut L, value: &Vec<u8>) -> (r: Result<
        (),
        MemoryError,
    >)
        ensures
            value@.len() != self.length ==> r == Err::<(), MemoryError>(MemoryError::InvalidBufferLength)
                && *final(space) == *old(space),
            value@.len() == self.length ==> write_through(old(space), final(space), self.offsets@, value@, r),
    {
        if value.len() != self.length {
            return Err(MemoryError::InvalidBufferLength);
        }
        let at = resolve_address(space, self.offsets.as_slice());
        match at {
            Ok(a) => put_address(a, value.as_slice(), space),
            Err(e) => Err(e),
        }
    }
}

/// In an image, bytes written through a chain of one offset are the bytes,
/// and the only bytes, that a read through the same chain gives.
pub proof fn lemma_write_then_read(
    before: MemoryImage,
    after: MemoryImage,
    offset: Address,
    value: Seq<u8>,
    outcome: Result<Seq<u8>, MemoryError>,
)
    requires
        write_through(&before, &after, seq![offset], value, Ok(())),
    ensures
        read_through(&after, seq![offset], value.len(), outcome) <==> outcome == Ok::<Seq<u8>, MemoryError>(
            value,
        ),
{
    let chain = seq![offset];
    let good = Ok::<Address, MemoryError>(offset);
    assert(put(&before, &after, offset, value, Ok(())));
    if value.len() == 0 {
        assert(value =~= Seq::<u8>::empty());
    } else {
        crate::image::lemma_read_after_write(before, after, offset, value, outcome);
    }
    if outcome == Ok::<Seq<u8>, MemoryError>(value) {
        assert(resolution(&after, chain, good));
        assert(copied(&after, offset, value.len(), outcome));
    }
}

} // verus!
