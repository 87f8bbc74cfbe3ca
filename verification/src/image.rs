//! A block of memory held in the process itself, readable and writable
//! through the same capabilities as the memory of another process.

use vstd::prelude::*;
use crate::access::{
    fails_at, hop, reaches, resolution, spec_advance, steps, walk, CopyAddress, PutAddress,
};
use crate::architecture::{Address, Architecture};
use crate::error::MemoryError;

verus! {

/// The platform error code of an access outside the image: a bad address.
pub const BAD_ADDRESS: i32 = 14;

/// The bytes of the address range that starts at `base`.
pub struct MemoryImage {
    pub base: Address,
    pub bytes: Vec<u8>,
    pub arch: Architecture,
}

impl MemoryImage {
    /// Whether the image holds all of the `len` bytes from `addr` on.
    pub open spec fn covers(&self, addr: Address, len: nat) -> bool {
        self.base <= addr && addr - self.base + len <= self.bytes@.len()
    }

    /// The `len` bytes of the image from `addr` on.
    pub open spec fn bytes_at(&self, addr: Address, len: nat) -> Seq<u8>
        recommends
            self.covers(addr, len),
    {
        self.bytes@.subrange(addr - self.base, addr - self.base + len)
    }

    /// The contents after `bytes` have been written at `addr`.
    pub open spec fn bytes_with(&self, addr: Address, bytes: Seq<u8>) -> Seq<u8>
        recommends
            self.covers(addr, bytes.len()),
    {
        self.bytes@.subrange(0, addr - self.base) + bytes + self.bytes@.subrange(
            addr - self.base + bytes.len(),
            self.bytes@.len() as int,
        )
    }

    /// An image of `bytes` at `base`.
    pub fn new(base: Address, bytes: Vec<u8>, arch: Architecture) -> (r: MemoryImage)
        ensures
            r.base == base,
            r.bytes == bytes,
            r.arch == arch,
    {
        MemoryImage { base, bytes, arch }
    }

    /// Where in the image the `len` bytes from `addr` on start, if the image
    /// holds them all.
    fn locate(&self, addr: Address, len: usize) -> (r: Option<usize>)
        ensures
            self.covers(addr, len as nat) <==> r is Some,
            r is Some ==> r->Some_0 == addr - self.base,
            self.bytes@.len() <= usize::MAX,
    {
        let total: usize = self.bytes.len();
        if addr < self.base {
            return None;
        }
        let offset: u64 = addr - self.base;
        if offset > total as u64 {
            return None;
        }
        let start: usize = offset as usize;
        if len > total - start {
            return None;
        }
        Some(start)
    }
}

impl CopyAddress for MemoryImage {
    /// An image reports its own architecture.
    open spec fn may_report(&self, arch: Architecture) -> bool {
        arch == self.arch
    }

    /// A read inside the image gives its bytes; a read of no bytes gives
    /// none; any other read fails with `BAD_ADDRESS`.
    open spec fn may_read(&self, addr: Address, len: nat, outcome: Result<Seq<u8>, MemoryError>) -> bool {
        if len == 0 {
            outcome == Ok::<Seq<u8>, MemoryError>(Seq::empty())
        } else if self.covers(addr, len) {
            outcome == Ok::<Seq<u8>, MemoryError>(self.bytes_at(addr, len))
        } else {
            outcome == Err::<Seq<u8>, MemoryError>(MemoryError::ReadFailed { platform_code: BAD_ADDRESS })
        }
    }

    fn copy_address(&self, addr: Address, buf: &mut [u8]) -> (r: Result<(), MemoryError>) {
        let len: usize = buf.len();
        if len == 0 {
            assert(buf@ =~= Seq::<u8>::empty());
            return Ok(());
        }
        let start: usize = match self.locate(addr, len) {
            Some(s) => s,
            None => {
                return Err(MemoryError::ReadFailed { platform_code: BAD_ADDRESS });
            },
        };
        let mut i: usize = 0;
        while i < len
            invariant
                i <= len,
                len == buf@.len(),
                start + len <= self.bytes@.len() <= usize::MAX,
                buf@.take(i as int) == self.bytes@.subrange(start as int, start + i),
            decreases len - i,
        {
            buf[i] = self.bytes[start + i];
            assert(buf@.take(i + 1) =~= self.bytes@.subrange(start as int, start + i + 1));
            i = i + 1;
        }
        assert(buf@.take(len as int) =~= buf@);
        Ok(())
    }

    fn get_pointer_width(&self) -> (arch: Architecture) {
        self.arch
    }
}

impl PutAddress for MemoryImage {
    /// A write inside the image replaces those bytes and nothing else; a
    /// write of no bytes changes nothing; any other write fails with
    /// `BAD_ADDRESS` and changes nothing.
    open spec fn may_write(&self, after: &Self, addr: Address, bytes: Seq<u8>, outcome: Result<(), MemoryError>) -> bool {
        &&& after.base == self.base
        &&& after.arch == self.arch
        &&& if bytes.len() == 0 {
            outcome == Ok::<(), MemoryError>(()) && after.bytes@ == self.bytes@
        } else if self.covers(addr, bytes.len()) {
            outcome == Ok::<(), MemoryError>(()) && after.bytes@ == self.bytes_with(addr, bytes)
        } else {
            outcome == Err::<(), MemoryError>(MemoryError::WriteFailed { platform_code: BAD_ADDRESS })
                && after.bytes@ == self.bytes@
        }
    }

    fn put_address(&mut self, addr: Address, buf: &[u8]) -> (r: Result<(), MemoryError>) {
        let len: usize = buf.len();
        if len == 0 {
            return Ok(());
        }
        let start: usize = match self.locate(addr, len) {
            Some(s) => s,
            None => {
                return Err(MemoryError::WriteFailed { platform_code: BAD_ADDRESS });
            },
        };
        let mut i: usize = 0;
        while i < len
            invariant
                i <= len,
                len == buf@.len(),
                self.base == old(self).base,
                self.arch == old(self).arch,
                self.bytes@.len() == old(self).bytes@.len(),
                start + len <= self.bytes@.len() <= usize::MAX,
                self.bytes@ == old(self).bytes@.subrange(0, start as int) + buf@.take(i as int) + old(
                    self,
                ).bytes@.subrange(start + i, old(self).bytes@.len() as int),
            decreases len - i,
        {
            self.bytes[start + i] = buf[i];
            assert(self.bytes@ =~= old(self).bytes@.subrange(0, start as int) + buf@.take(i + 1) + old(
                self,
            ).bytes@.subrange(start + i + 1, old(self).bytes@.len() as int));
            i = i + 1;
        }
        assert(buf@.take(len as int) =~= buf@);
        Ok(())
    }
}

/// What was written into an image is what a read of the same place gives,
/// and it is the only thing that such a read gives.
pub proof fn lemma_read_after_write(
    before: MemoryImage,
    after: MemoryImage,
    addr: Address,
    bytes: Seq<u8>,
    outcome: Result<Seq<u8>, MemoryError>,
)
    requires
        before.may_write(&after, addr, bytes, Ok(())),
    ensures
        after.may_read(addr, bytes.len(), outcome) <==> outcome == Ok::<Seq<u8>, MemoryError>(bytes),
{
    if bytes.len() == 0 {
        assert(bytes =~= Seq::<u8>::empty());
    } else {
        assert(before.covers(addr, bytes.len()));
        assert(after.bytes@.len() == before.bytes@.len());
        assert(after.bytes_at(addr, bytes.len()) =~= bytes);
    }
}

/// The pointer that an image holds at `at`, or the failure of reading it.
pub open spec fn pointer_at(image: MemoryImage, at: Address) -> Result<Address, MemoryError> {
    let width = image.arch.spec_byte_width();
    if image.covers(at, width) {
        Ok(image.arch.spec_address(image.bytes_at(at, width)) as u64)
    } else {
        Err(MemoryError::ReadFailed { platform_code: BAD_ADDRESS })
    }
}

/// Where following every offset of `path` through an image ends, with one
/// pointer read after each: at an address, or with the first failure.
pub open spec fn followed(image: MemoryImage, path: Seq<Address>) -> Result<Address, MemoryError>
    decreases path.len(),
{
    if path.len() == 0 {
        Ok(0)
    } else {
        match followed(image, path.drop_last()) {
            Ok(prev) => pointer_at(image, spec_advance(prev, path.last())),
            Err(e) => Err(e),
        }
    }
}

/// What resolving `offsets` through an image gives.
pub open spec fn resolved(image: MemoryImage, offsets: Seq<Address>) -> Result<Address, MemoryError> {
    if offsets.len() == 0 {
        Err(MemoryError::InvalidOffsetChain)
    } else {
        match followed(image, offsets.drop_last()) {
            Ok(last) => Ok(spec_advance(last, offsets.last())),
            Err(e) => Err(e),
        }
    }
}

/// One pointer read in an image gives the pointer that the image holds
/// there, and nothing else.
proof fn lemma_image_step(image: MemoryImage, from: Address, offset: Address, to: Address)
    ensures
        steps(&image, image.arch, from, offset, to) <==> pointer_at(image, spec_advance(from, offset)) == Ok::<
            Address,
            MemoryError,
        >(to),
{
    let arch = image.arch;
    let width = arch.spec_byte_width();
    let at = spec_advance(from, offset);
    if image.covers(at, width) {
        let pointer = image.bytes_at(at, width);
        crate::architecture::lemma_bytes_round_trip(arch, pointer);
        if arch.spec_address(pointer) as u64 == to {
            assert(hop(&image, arch, from, offset, pointer, to));
        }
    }
    if steps(&image, arch, from, offset, to) {
        let bytes = choose|bytes: Seq<u8>| #[trigger] hop(&image, arch, from, offset, bytes, to);
        assert(image.covers(at, width));
        assert(bytes == image.bytes_at(at, width));
    }
}

/// A path through an image ends at one address, or at none.
proof fn lemma_image_reaches(image: MemoryImage, path: Seq<Address>, address: Address)
    ensures
        reaches(&image, image.arch, path, address) <==> followed(image, path) == Ok::<Address, MemoryError>(
            address,
        ),
    decreases path.len(),
{
    let arch = image.arch;
    if path.len() > 0 {
        let front = path.drop_last();
        if reaches(&image, arch, path, address) {
            let prev = choose|prev: Address|
                reaches(&image, arch, front, prev) && #[trigger] steps(&image, arch, prev, path.last(), address);
            lemma_image_reaches(image, front, prev);
            lemma_image_step(image, prev, path.last(), address);
        }
        if followed(image, path) == Ok::<Address, MemoryError>(address) {
            let prev = followed(image, front)->Ok_0;
            lemma_image_reaches(image, front, prev);
            lemma_image_step(image, prev, path.last(), address);
            assert(steps(&image, arch, prev, path.last(), address));
        }
    }
}

/// A path through an image that fails has a first read that fails, after a
/// part of the path that ends at an address.
proof fn lemma_image_failure(image: MemoryImage, path: Seq<Address>) -> (hops: int)
    requires
        followed(image, path) is Err,
    ensures
        0 <= hops < path.len(),
        followed(image, path.take(hops)) is Ok,
        pointer_at(image, spec_advance(followed(image, path.take(hops))->Ok_0, path[hops])) == Err::<
            Address,
            MemoryError,
        >(followed(image, path)->Err_0),
    decreases path.len(),
{
    let front = path.drop_last();
    assert(front =~= path.take(path.len() - 1));
    if followed(image, front) is Err {
        let hops = lemma_image_failure(image, front);
        assert(front.take(hops) =~= path.take(hops));
        hops
    } else {
        path.len() - 1
    }
}

/// A failure on a path through an image stays the failure of every longer
/// path.
proof fn lemma_image_failure_stays(image: MemoryImage, path: Seq<Address>, hops: int)
    requires
        0 <= hops <= path.len(),
        followed(image, path.take(hops)) is Err,
    ensures
        followed(image, path) == followed(image, path.take(hops)),
    decreases path.len() - hops,
{
    if hops < path.len() {
        assert(path.take(hops + 1).drop_last() =~= path.take(hops));
        lemma_image_failure_stays(image, path, hops + 1);
    } else {
        assert(path.take(hops) =~= path);
    }
}

/// Through an image, an offset chain of any length resolves to one result
/// and to nothing else: each offset but the last is added and one pointer of
/// the image's architecture is read there; the last is added and nothing is
/// read at the result; the first read outside the image ends the resolution.
pub proof fn lemma_image_resolution(image: MemoryImage, offsets: Seq<Address>, r: Result<Address, MemoryError>)
    ensures
        resolution(&image, offsets, r) <==> r == resolved(image, offsets),
{
    let arch = image.arch;
    if offsets.len() == 1 {
        assert(offsets.drop_last().len() == 0);
        assert(offsets.last() == offsets[0]);
        assert(spec_advance(0, offsets[0]) == offsets[0]);
    } else if offsets.len() > 1 {
        let front = offsets.drop_last();
        assert(front =~= offsets.take(offsets.len() - 1));
        if resolution(&image, offsets, r) {
            let a2 = choose|a2: Architecture| #[trigger] image.may_report(a2) && walk(&image, a2, offsets, r);
            assert(a2 == arch);
            match r {
                Ok(a) => {
                    let last = choose|last: Address| #[trigger]
                        reaches(&image, arch, front, last) && a == spec_advance(last, offsets.last());
                    lemma_image_reaches(image, front, last);
                },
                Err(e) => {
                    let (hops, at) = choose|hops: int, at: Address| #[trigger]
                        fails_at(&image, arch, offsets, hops, at, e);
                    lemma_image_reaches(image, offsets.take(hops), at);
                    assert(front.take(hops) =~= offsets.take(hops));
                    assert(front.take(hops + 1).drop_last() =~= offsets.take(hops));
                    assert(front.take(hops + 1).last() == offsets[hops]);
                    assert(followed(image, front.take(hops + 1)) == Err::<Address, MemoryError>(e));
                    lemma_image_failure_stays(image, front, hops + 1);
                },
            }
        }
        if r == resolved(image, offsets) {
            assert(image.may_report(arch));
            match followed(image, front) {
                Ok(last) => {
                    lemma_image_reaches(image, front, last);
                    assert(walk(&image, arch, offsets, r));
                },
                Err(e) => {
                    let hops = lemma_image_failure(image, front);
                    let at = followed(image, front.take(hops))->Ok_0;
                    lemma_image_reaches(image, front.take(hops), at);
                    assert(front.take(hops) =~= offsets.take(hops));
                    assert(front[hops] == offsets[hops]);
                    assert(fails_at(&image, arch, offsets, hops, at, e));
                    assert(walk(&image, arch, offsets, r));
                },
            }
        }
    }
}

/// Through an image, a chain of two offsets resolves to the pointer that
/// the image holds at the first offset, plus the second offset.
pub proof fn lemma_two_level_chain(
    image: MemoryImage,
    first: Address,
    second: Address,
    at: Result<Address, MemoryError>,
)
    requires
        image.covers(first, image.arch.spec_byte_width()),
    ensures
        image.arch.spec_address(image.bytes_at(first, image.arch.spec_byte_width())) <= u64::MAX,
        resolution(&image, seq![first, second], at) <==> at == Ok::<Address, MemoryError>(
            spec_advance(
                image.arch.spec_address(image.bytes_at(first, image.arch.spec_byte_width())) as u64,
                second,
            ),
        ),
{
    let chain = seq![first, second];
    let path = chain.drop_last();
    crate::architecture::lemma_bytes_round_trip(
        image.arch,
        image.bytes_at(first, image.arch.spec_byte_width()),
    );
    lemma_image_resolution(image, chain, at);
    assert(path =~= seq![first]);
    assert(path.drop_last() =~= Seq::<Address>::empty());
    assert(followed(image, path.drop_last()) == Ok::<Address, MemoryError>(0));
    assert(spec_advance(0, first) == first);
    assert(path.last() == first);
    assert(chain.last() == second);
}

} // verus!
