use titanium::access::{
    advance, checked_read, checked_write, copy_address, put_address, resolve_address, CopyAddress,
    PutAddress,
};
use titanium::architecture::{Address, Architecture, ByteOrder, PointerWidth};
use titanium::error::MemoryError;
use titanium::image::{MemoryImage, BAD_ADDRESS};
use titanium::member::{DataMember, LocalMember, Memory};

fn le64() -> Architecture {
    Architecture::new(PointerWidth::Bits64, ByteOrder::LittleEndian)
}

fn le32() -> Architecture {
    Architecture::new(PointerWidth::Bits32, ByteOrder::LittleEndian)
}

/// A source that counts nothing and fails every access.
struct Closed;

impl CopyAddress for Closed {
    fn copy_address(&self, _addr: Address, _buf: &mut [u8]) -> Result<(), MemoryError> {
        Err(MemoryError::ReadFailed { platform_code: 5 })
    }

    fn get_pointer_width(&self) -> Architecture {
        le64()
    }
}

impl PutAddress for Closed {
    fn put_address(&mut self, _addr: Address, _buf: &[u8]) -> Result<(), MemoryError> {
        Err(MemoryError::WriteFailed { platform_code: 5 })
    }
}

/// A source that panics when it is asked for anything.
struct Untouchable;

impl CopyAddress for Untouchable {
    fn copy_address(&self, _addr: Address, _buf: &mut [u8]) -> Result<(), MemoryError> {
        panic!("the source was read")
    }

    fn get_pointer_width(&self) -> Architecture {
        le64()
    }
}

impl PutAddress for Untouchable {
    fn put_address(&mut self, _addr: Address, _buf: &[u8]) -> Result<(), MemoryError> {
        panic!("the source was written")
    }
}

#[test]
fn advance_adds_and_wraps() {
    assert_eq!(advance(0, 0), 0);
    assert_eq!(advance(0x1000, 0x24), 0x1024);
    assert_eq!(advance(u64::MAX, 0), u64::MAX);
    assert_eq!(advance(u64::MAX, 1), 0);
    assert_eq!(advance(u64::MAX - 1, 5), 3);
    assert_eq!(advance(1 << 63, 1 << 63), 0);
}

#[test]
fn empty_chain_is_refused_without_a_read() {
    assert_eq!(resolve_address(&Untouchable, &[]), Err(MemoryError::InvalidOffsetChain));
    let member = DataMember::new(Untouchable, 4);
    assert_eq!(member.get_offset(), Err(MemoryError::InvalidOffsetChain));
    assert_eq!(member.read(), Err(MemoryError::InvalidOffsetChain));
}

#[test]
fn single_offset_resolves_to_itself_without_a_read() {
    let base: Address = 0x7ff6_0000_0000;
    let offset: Address = 0x1a2b;
    assert_eq!(resolve_address(&Untouchable, &[base + offset]), Ok(base + offset));
    assert_eq!(resolve_address(&Closed, &[0]), Ok(0));
    assert_eq!(resolve_address(&Closed, &[u64::MAX]), Ok(u64::MAX));
}

#[test]
fn two_level_chain_resolves_to_the_inner_address() {
    let base: Address = 0x4000;
    let mut bytes = vec![0u8; 64];
    let inner: Address = base + 40;
    bytes[16..24].copy_from_slice(&inner.to_le_bytes());
    bytes[40..44].copy_from_slice(&[9, 8, 7, 6]);
    let image = MemoryImage::new(base, bytes, le64());
    assert_eq!(resolve_address(&image, &[base + 16, 0]), Ok(inner));
    assert_eq!(resolve_address(&image, &[base + 16, 2]), Ok(inner + 2));
    let member = DataMember::new_offset(image, vec![base + 16, 0], 4);
    assert_eq!(member.get_offset(), Ok(inner));
    assert_eq!(member.read(), Ok(vec![9, 8, 7, 6]));
}

#[test]
fn hops_read_one_pointer_of_the_architecture() {
    let base: Address = 0x100;
    let mut bytes = vec![0xffu8; 32];
    bytes[0..4].copy_from_slice(&0x110u32.to_le_bytes());
    bytes[0x14..0x18].copy_from_slice(&0x108u32.to_le_bytes());
    let image = MemoryImage::new(base, bytes, le32());
    assert_eq!(resolve_address(&image, &[0x100, 4, 3]), Ok(0x10b));
    let big = MemoryImage::new(
        0x20,
        vec![0x00, 0x2a, 0xff, 0xff],
        Architecture::new(PointerWidth::Bits16, ByteOrder::BigEndian),
    );
    assert_eq!(resolve_address(&big, &[0x20, 1]), Ok(0x2b));
}

#[test]
fn failed_hop_aborts_the_resolution() {
    assert_eq!(
        resolve_address(&Closed, &[0x10, 0x20]),
        Err(MemoryError::ReadFailed { platform_code: 5 })
    );
    let image = MemoryImage::new(0x1000, vec![0u8; 8], le64());
    assert_eq!(
        resolve_address(&image, &[0x1001, 0]),
        Err(MemoryError::ReadFailed { platform_code: BAD_ADDRESS })
    );
    assert_eq!(
        resolve_address(&image, &[0xfff, 0]),
        Err(MemoryError::ReadFailed { platform_code: BAD_ADDRESS })
    );
    let member = DataMember::new_offset(Closed, vec![1, 2, 3], 2);
    assert_eq!(member.read(), Err(MemoryError::ReadFailed { platform_code: 5 }));
}

#[test]
fn zero_length_transfers_succeed() {
    assert_eq!(copy_address(0xdead_beef, 0, &Untouchable), Ok(vec![]));
    let mut target = Untouchable;
    assert_eq!(put_address(0xdead_beef, &[], &mut target), Ok(()));
    let mut image = MemoryImage::new(0x10, vec![1, 2, 3], le64());
    let mut empty: [u8; 0] = [];
    assert_eq!(image.copy_address(0x9999, &mut empty), Ok(()));
    assert_eq!(image.put_address(0x9999, &[]), Ok(()));
    assert_eq!(image.bytes, vec![1, 2, 3]);
}

#[test]
fn image_reads_and_writes_in_range_only() {
    let mut image = MemoryImage::new(0x10, vec![1, 2, 3, 4, 5], le64());
    assert_eq!(copy_address(0x11, 3, &image), Ok(vec![2, 3, 4]));
    assert_eq!(copy_address(0x10, 5, &image), Ok(vec![1, 2, 3, 4, 5]));
    assert_eq!(
        copy_address(0x11, 5, &image),
        Err(MemoryError::ReadFailed { platform_code: BAD_ADDRESS })
    );
    assert_eq!(
        copy_address(0xf, 1, &image),
        Err(MemoryError::ReadFailed { platform_code: BAD_ADDRESS })
    );
    assert_eq!(put_address(0x12, &[9, 9], &mut image), Ok(()));
    assert_eq!(image.bytes, vec![1, 2, 9, 9, 5]);
    assert_eq!(
        put_address(0x14, &[7, 7], &mut image),
        Err(MemoryError::WriteFailed { platform_code: BAD_ADDRESS })
    );
    assert_eq!(image.bytes, vec![1, 2, 9, 9, 5]);
    assert_eq!(image.base, 0x10);
}

#[test]
fn write_then_read_gives_the_value_back() {
    let base: Address = 0x5000;
    let mut space = MemoryImage::new(base, vec![0u8; 32], le64());
    let member = LocalMember::new_offset(vec![base + 8], 4);
    let value = 0x0123_4567u32.to_ne_bytes().to_vec();
    assert_eq!(member.write(&mut space, &value), Ok(()));
    assert_eq!(member.read(&space), Ok(value.clone()));
    assert_eq!(member.get_offset(&space), Ok(base + 8));
    assert_eq!(&space.bytes[8..12], value.as_slice());
    assert_eq!(&space.bytes[0..8], &[0u8; 8]);

    let mut data = DataMember::new_offset(space, vec![base + 20], 2);
    assert_eq!(data.write(&vec![0xaa, 0xbb]), Ok(()));
    assert_eq!(data.read(), Ok(vec![0xaa, 0xbb]));
}

#[test]
fn write_refuses_a_value_of_another_length() {
    let mut member = DataMember::new_offset(Untouchable, vec![0x10], 4);
    assert_eq!(member.write(&vec![1, 2]), Err(MemoryError::InvalidBufferLength));
    let local = LocalMember::new_offset(vec![0x10], 1);
    let mut space = Untouchable;
    assert_eq!(local.write(&mut space, &vec![]), Err(MemoryError::InvalidBufferLength));
}

#[test]
fn write_failures_are_reported() {
    let mut member = DataMember::new_offset(Closed, vec![0x10], 1);
    assert_eq!(member.write(&vec![1]), Err(MemoryError::WriteFailed { platform_code: 5 }));
    let mut empty = DataMember::new(Closed, 1);
    assert_eq!(empty.write(&vec![1]), Err(MemoryError::InvalidOffsetChain));
    let mut chained = DataMember::new_offset(Closed, vec![0x10, 0], 1);
    assert_eq!(chained.write(&vec![1]), Err(MemoryError::ReadFailed { platform_code: 5 }));
}

#[test]
fn set_offset_replaces_the_chain() {
    let image = MemoryImage::new(0, vec![10, 20, 30, 40], le64());
    let mut member = DataMember::new(image, 1);
    assert_eq!(member.read(), Err(MemoryError::InvalidOffsetChain));
    member.set_offset(vec![2]);
    assert_eq!(member.read(), Ok(vec![30]));
    member.set_offset(vec![]);
    assert_eq!(member.get_offset(), Err(MemoryError::InvalidOffsetChain));
    let mut local = LocalMember::new(1);
    assert_eq!(local.read(&member.process), Err(MemoryError::InvalidOffsetChain));
    local.set_offset(vec![3]);
    assert_eq!(local.read(&member.process), Ok(vec![40]));
}

#[test]
fn a_transfer_succeeds_only_when_it_is_complete() {
    assert_eq!(checked_read(true, 8, 8, 0), Ok(()));
    assert_eq!(checked_read(true, 0, 0, 3), Ok(()));
    assert_eq!(checked_read(true, 8, 7, 0), Err(MemoryError::ReadFailed { platform_code: 0 }));
    assert_eq!(checked_read(true, 8, 9, 299), Err(MemoryError::ReadFailed { platform_code: 299 }));
    assert_eq!(checked_read(false, 8, 8, 5), Err(MemoryError::ReadFailed { platform_code: 5 }));
    assert_eq!(checked_read(false, 8, 0, 14), Err(MemoryError::ReadFailed { platform_code: 14 }));
    assert_eq!(checked_write(true, 4, 4, 0), Ok(()));
    assert_eq!(checked_write(true, 4, 2, 299), Err(MemoryError::WriteFailed { platform_code: 299 }));
    assert_eq!(checked_write(false, 4, 4, 5), Err(MemoryError::WriteFailed { platform_code: 5 }));
    assert_eq!(checked_write(false, 0, 0, 1), Err(MemoryError::WriteFailed { platform_code: 1 }));
}
