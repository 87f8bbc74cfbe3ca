//! The raw access primitives, as capabilities that a platform implements, and
//! the resolution of offset chains through them.

use vstd::prelude::*;
use crate::architecture::{Address, Architecture};
use crate::error::MemoryError;

verus! {

/// The address `offset` bytes after `address`, wrapping around at the end of
/// the address space.
pub open spec fn spec_advance(address: Address, offset: Address) -> Address {
    if address + offset <= u64::MAX {
        (address + offset) as u64
    } else {
        (address + offset - 0x1_0000_0000_0000_0000) as u64
    }
}

/// Computes [`spec_advance`].
#[verifier::when_used_as_spec(spec_advance)]
pub fn advance(address: Address, offset: Address) -> (r: Address)
    ensures
        r == spec_advance(address, offset),
{
    if offset <= u64::MAX - address {
        address + offset
    } else {
        offset - (u64::MAX - address) - 1
    }
}

/// The capability to copy bytes out of the address space of a process.
pub trait CopyAddress {
    /// Whether the source may report `arch` as the pointer layout of the
    /// process. Where an implementation does not say, it may report any.
    open spec fn may_report(&self, arch: Architecture) -> bool {
        true
    }

    /// Whether a read of `len` bytes at `addr` may end in `outcome`: the bytes
    /// read, or the failure. Where an implementation does not say, as one
    /// that reads a live process cannot, every outcome is possible.
    open spec fn may_read(&self, addr: Address, len: nat, outcome: Result<Seq<u8>, MemoryError>) -> bool {
        true
    }

    /// Fills `buf` with the `buf.len()` bytes that start at `addr`. All of
    /// them are read, or the call fails.
    fn copy_address(&self, addr: Address, buf: &mut [u8]) -> (r: Result<(), MemoryError>)
        ensures
            final(buf)@.len() == old(buf)@.len(),
            self.may_read(addr, old(buf)@.len(), read_outcome(r, final(buf)@)),
    ;

    /// The pointer layout of the process.
    fn get_pointer_width(&self) -> (arch: Architecture)
        ensures
            self.may_report(arch),
    ;
}

/// The outcome of a read as a value: the bytes that were read, or the failure.
pub open spec fn read_outcome(r: Result<(), MemoryError>, bytes: Seq<u8>) -> Result<Seq<u8>, MemoryError> {
    match r {
        Ok(_) => Ok(bytes),
        Err(e) => Err(e),
    }
}

/// One hop of a chain: a read of one pointer at `from + offset` may return
/// `bytes`, and they hold the address `to`.
pub open spec fn hop<S: CopyAddress + ?Sized>(
    source: &S,
    arch: Architecture,
    from: Address,
    offset: Address,
    bytes: Seq<u8>,
    to: Address,
) -> bool {
    &&& bytes.len() == arch.spec_byte_width()
    &&& source.may_read(spec_advance(from, offset), arch.spec_byte_width(), Ok(bytes))
    &&& to == arch.spec_address(bytes)
}

/// One pointer read at `from + offset` may give the address `to`.
pub open spec fn steps<S: CopyAddress + ?Sized>(
    source: &S,
    arch: Architecture,
    from: Address,
    offset: Address,
    to: Address,
) -> bool {
    exists|bytes: Seq<u8>| #[trigger] hop(source, arch, from, offset, bytes, to)
}

/// Whether following every offset of `path` from address zero, with one
/// pointer of the layout `arch` read after each, can end at `address`.
pub open spec fn reaches<S: CopyAddress + ?Sized>(
    source: &S,
    arch: Architecture,
    path: Seq<Address>,
    address: Address,
) -> bool
    decreases path.len(),
{
    if path.len() == 0 {
        address == 0
    } else {
        exists|prev: Address|
            reaches(source, arch, path.drop_last(), prev) && #[trigger] steps(
                source,
                arch,
                prev,
                path.last(),
                address,
            )
    }
}

/// The first `hops` offsets can lead to `at`, and the read of the next
/// pointer from there may fail with `e`.
pub open spec fn fails_at<S: CopyAddress + ?Sized>(
    source: &S,
    arch: Architecture,
    offsets: Seq<Address>,
    hops: int,
    at: Address,
    e: MemoryError,
) -> bool {
    &&& 0 <= hops < offsets.len() - 1
    &&& reaches(source, arch, offsets.take(hops), at)
    &&& source.may_read(spec_advance(at, offsets[hops]), arch.spec_byte_width(), Err(e))
}

/// What resolving `offsets` through a source of the pointer layout `arch`
/// may give: the last offset added to an address that all the others lead
/// to, or the failure of one of the reads on the way.
pub open spec fn walk<S: CopyAddress + ?Sized>(
    source: &S,
    arch: Architecture,
    offsets: Seq<Address>,
    r: Result<Address, MemoryError>,
) -> bool {
    match r {
        Ok(a) => exists|last: Address| #[trigger]
            reaches(source, arch, offsets.drop_last(), last) && a == spec_advance(last, offsets.last()),
        Err(e) => exists|hops: int, at: Address| #[trigger] fails_at(source, arch, offsets, hops, at, e),
    }
}

/// What resolving `offsets` through `source` may give. An empty chain is
/// refused. A chain of one offset gives that offset, and nothing is asked of
/// the source. A longer chain is walked in a pointer layout that the source
/// reports.
pub open spec fn resolution<S: CopyAddress + ?Sized>(
    source: &S,
    offsets: Seq<Address>,
    r: Result<Address, MemoryError>,
) -> bool {
    if offsets.len() == 0 {
        r == Err::<Address, MemoryError>(MemoryError::InvalidOffsetChain)
    } else if offsets.len() == 1 {
        r == Ok::<Address, MemoryError>(offsets[0])
    } else {
        exists|arch: Architecture| #[trigger] source.may_report(arch) && walk(source, arch, offsets, r)
    }
}

/// Walks the offset chain: each offset but the last is added to the
/// address and one pointer is read there, which becomes the address; the
/// last offset is added and nothing is read at the result.
pub fn resolve_address<S: CopyAddress + ?Sized>(source: &S, offsets: &[Address]) -> (r: Result<Address, MemoryError>)
    ensures
        resolution(source, offsets@, r),
        offsets@.len() == 0 ==> r == Err::<Address, MemoryError>(MemoryError::InvalidOffsetChain),
        offsets@.len() == 1 ==> r == Ok::<Address, MemoryError>(offsets@[0]),
{
    let n: usize = offsets.len();
    if n == 0 {
        return Err(MemoryError::InvalidOffsetChain);
    }
    if n == 1 {
        return Ok(offsets[0]);
    }
    let arch = source.get_pointer_width();
    let width: usize = arch.byte_width();
    let mut address: Address = 0;
    let mut copy: Vec<u8> = Vec::new();
    let mut filled: usize = 0;
    while filled < width
        invariant
            filled <= width,
            copy@.len() == filled,
        decreases width - filled,
    {
        copy.push(0u8);
        filled = filled + 1;
    }
    let mut i: usize = 0;
    assert(offsets@.take(0) =~= Seq::<Address>::empty());
    while i < n - 1
        invariant
            1 < n == offsets@.len(),
            i <= n - 1,
            source.may_report(arch),
            width == arch.spec_byte_width(),
            copy@.len() == width,
            reaches(source, arch, offsets@.take(i as int), address),
        decreases n - i,
    {
        let at: Address = advance(address, offsets[i]);
        match source.copy_address(at, copy.as_mut_slice()) {
            Err(e) => {
                assert(fails_at(source, arch, offsets@, i as int, address, e));
                return Err(e);
            },
            Ok(()) => {},
        }
        let next = arch.address_from_bytes(copy.as_slice());
        match next {
            Err(e) => {
                return Err(e);
            },
            Ok(a) => {
                proof {
                    let path = offsets@.take(i + 1);
                    assert(path.drop_last() =~= offsets@.take(i as int));
                    assert(path.last() == offsets@[i as int]);
                    assert(hop(source, arch, address, path.last(), copy@, a));
                    assert(steps(source, arch, address, path.last(), a));
                }
                address = a;
            },
        }
        i = i + 1;
    }
    assert(offsets@.take(n - 1) =~= offsets@.drop_last());
    let r = Ok(advance(address, offsets[n - 1]));
    assert(walk(source, arch, offsets@, r));
    r
}

/// The capability to put bytes into the address space of a process.
pub trait PutAddress: Sized {
    /// Whether a write of `bytes` at `addr` may end in `outcome` and leave
    /// `after` behind. Where an implementation does not say, every outcome
    /// is possible.
    open spec fn may_write(&self, after: &Self, addr: Address, bytes: Seq<u8>, outcome: Result<(), MemoryError>) -> bool {
        true
    }

    /// Writes all of `buf` at `addr`, or fails.
    fn put_address(&mut self, addr: Address, buf: &[u8]) -> (r: Result<(), MemoryError>)
        ensures
            old(self).may_write(final(self), addr, buf@, r),
    ;
}

/// What a read of `length` bytes through [`copy_address`] may give: nothing
/// and success for no bytes, else what the source admits.
pub open spec fn copied<S: CopyAddress + ?Sized>(
    source: &S,
    addr: Address,
    length: nat,
    outcome: Result<Seq<u8>, MemoryError>,
) -> bool {
    if length == 0 {
        outcome == Ok::<Seq<u8>, MemoryError>(Seq::empty())
    } else {
        source.may_read(addr, length, outcome)
    }
}

/// A result with the bytes of its vector in place of the vector.
pub open spec fn bytes_view(r: Result<Vec<u8>, MemoryError>) -> Result<Seq<u8>, MemoryError> {
    match r {
        Ok(v) => Ok(v@),
        Err(e) => Err(e),
    }
}

/// Reads `length` bytes at `addr` from `source` into a new buffer. A read of
/// no bytes succeeds without asking the source.
pub fn copy_address<S: CopyAddress + ?Sized>(addr: Address, length: usize, source: &S) -> (r: Result<
    Vec<u8>,
    MemoryError,
>)
    ensures
        copied(source, addr, length as nat, bytes_view(r)),
        length == 0 ==> r is Ok,
        r is Ok ==> r->Ok_0@.len() == length,
{
    let mut copy: Vec<u8> = Vec::new();
    if length == 0 {
        return Ok(copy);
    }
    let mut filled: usize = 0;
    while filled < length
        invariant
            filled <= length,
            copy@.len() == filled,
        decreases length - filled,
    {
        copy.push(0u8);
        filled = filled + 1;
    }
    match source.copy_address(addr, copy.as_mut_slice()) {
        Ok(()) => Ok(copy),
        Err(e) => Err(e),
    }
}

/// What a write through [`put_address`] may do: nothing and success for no
/// bytes, else what the target admits.
pub open spec fn put<S: PutAddress>(
    before: &S,
    after: &S,
    addr: Address,
    bytes: Seq<u8>,
    outcome: Result<(), MemoryError>,
) -> bool {
    if bytes.len() == 0 {
        outcome == Ok::<(), MemoryError>(()) && after == before
    } else {
        before.may_write(after, addr, bytes, outcome)
    }
}

/// Writes `buf` at `addr` into `target`. A write of no bytes succeeds without
/// asking the target.
pub fn put_address<S: PutAddress>(addr: Address, buf: &[u8], target: &mut S) -> (r: Result<(), MemoryError>)
    ensures
        put(old(target), final(target), addr, buf@, r),
        buf@.len() == 0 ==> r == Ok::<(), MemoryError>(()) && *final(target) == *old(target),
{
    if buf.len() == 0 {
        return Ok(());
    }
    target.put_address(addr, buf)
}

/// What a read comes to that the platform has made: success where the call
/// succeeded and all bytes were read, else `ReadFailed` with the platform's
/// code. A read of only some of the bytes is a failure.
pub fn checked_read(succeeded: bool, requested: usize, transferred: usize, platform_code: i32) -> (r: Result<
    (),
    MemoryError,
>)
    ensures
        succeeded && transferred == requested ==> r == Ok::<(), MemoryError>(()),
        !(succeeded && transferred == requested) ==> r == Err::<(), MemoryError>(
            MemoryError::ReadFailed { platform_code },
        ),
{
    if succeeded && transferred == requested {
        Ok(())
    } else {
        Err(MemoryError::ReadFailed { platform_code })
    }
}

/// What a write comes to that the platform has made: success where the call
/// succeeded and all bytes were written, else `WriteFailed` with the
/// platform's code. A write of only some of the bytes is a failure.
pub fn checked_write(succeeded: bool, requested: usize, transferred: usize, platform_code: i32) -> (r: Result<
    (),
    MemoryError,
>)
    ensures
        succeeded && transferred == requested ==> r == Ok::<(), MemoryError>(()),
        !(succeeded && transferred == requested) ==> r == Err::<(), MemoryError>(
            MemoryError::WriteFailed { platform_code },
        ),
{
    if succeeded && transferred == requested {
        Ok(())
    } else {
        Err(MemoryError::WriteFailed { platform_code })
    }
}

} // verus!
