use titanium::architecture::{Architecture, ByteOrder, PointerWidth};
use titanium::error::MemoryError;

#[test]
fn byte_widths() {
    let le = ByteOrder::LittleEndian;
    assert_eq!(Architecture::new(PointerWidth::Bits8, le).byte_width(), 1);
    assert_eq!(Architecture::new(PointerWidth::Bits16, le).byte_width(), 2);
    assert_eq!(Architecture::new(PointerWidth::Bits32, le).byte_width(), 4);
    assert_eq!(Architecture::new(PointerWidth::Bits64, le).byte_width(), 8);
}

#[test]
fn little_endian_address_from_bytes() {
    let arch = Architecture::new(PointerWidth::Bits32, ByteOrder::LittleEndian);
    assert_eq!(arch.address_from_bytes(&[0x78, 0x56, 0x34, 0x12]), Ok(0x1234_5678));
}

#[test]
fn big_endian_address_from_bytes() {
    let arch = Architecture::new(PointerWidth::Bits32, ByteOrder::BigEndian);
    assert_eq!(arch.address_from_bytes(&[0x12, 0x34, 0x56, 0x78]), Ok(0x1234_5678));
}

#[test]
fn wide_address_from_bytes() {
    let arch = Architecture::new(PointerWidth::Bits64, ByteOrder::LittleEndian);
    assert_eq!(
        arch.address_from_bytes(&[0xff, 0xff, 0xff, 0xff, 0xff, 0xff, 0xff, 0xff]),
        Ok(u64::MAX)
    );
    assert_eq!(
        arch.address_from_bytes(&[0xac, 0x7b, 0x5f, 0x0d, 0xfd, 0x7f, 0, 0]),
        Ok(0x7ffd_0d5f_7bac)
    );
}

#[test]
fn address_from_bytes_refuses_other_lengths() {
    let arch = Architecture::new(PointerWidth::Bits32, ByteOrder::LittleEndian);
    assert_eq!(arch.address_from_bytes(&[1, 2, 3]), Err(MemoryError::InvalidBufferLength));
    assert_eq!(arch.address_from_bytes(&[1, 2, 3, 4, 5]), Err(MemoryError::InvalidBufferLength));
    assert_eq!(arch.address_from_bytes(&[]), Err(MemoryError::InvalidBufferLength));
    let wide = Architecture::new(PointerWidth::Bits64, ByteOrder::BigEndian);
    assert_eq!(wide.address_from_bytes(&[1, 2, 3, 4]), Err(MemoryError::InvalidBufferLength));
}

#[test]
fn bytes_from_address_in_both_orders() {
    let le = Architecture::new(PointerWidth::Bits32, ByteOrder::LittleEndian);
    assert_eq!(le.bytes_from_address(0x1234_5678), vec![0x78, 0x56, 0x34, 0x12]);
    let be = Architecture::new(PointerWidth::Bits32, ByteOrder::BigEndian);
    assert_eq!(be.bytes_from_address(0x1234_5678), vec![0x12, 0x34, 0x56, 0x78]);
    let byte = Architecture::new(PointerWidth::Bits8, ByteOrder::BigEndian);
    assert_eq!(byte.bytes_from_address(0x7f), vec![0x7f]);
}

#[test]
fn bytes_from_address_drops_what_does_not_fit() {
    let le = Architecture::new(PointerWidth::Bits16, ByteOrder::LittleEndian);
    assert_eq!(le.bytes_from_address(0x12_3456), vec![0x56, 0x34]);
}

#[test]
fn address_round_trip() {
    for width in [PointerWidth::Bits8, PointerWidth::Bits16, PointerWidth::Bits32, PointerWidth::Bits64] {
        for order in [ByteOrder::LittleEndian, ByteOrder::BigEndian] {
            let arch = Architecture::new(width, order);
            let top: u64 = if arch.byte_width() == 8 {
                u64::MAX
            } else {
                (1u64 << (8 * arch.byte_width())) - 1
            };
            for addr in [0u64, 1, 0x7f, 0xff, top / 3, top - 1, top] {
                let addr = addr.min(top);
                let bytes = arch.bytes_from_address(addr);
                assert_eq!(bytes.len(), arch.byte_width());
                assert_eq!(arch.address_from_bytes(&bytes), Ok(addr));
            }
        }
    }
}

#[test]
fn bytes_round_trip() {
    let bytes = vec![0xde, 0xad, 0xbe, 0xef, 0x01, 0x02, 0x03, 0x04];
    for order in [ByteOrder::LittleEndian, ByteOrder::BigEndian] {
        let arch = Architecture::new(PointerWidth::Bits64, order);
        let addr = arch.address_from_bytes(&bytes).unwrap();
        assert_eq!(arch.bytes_from_address(addr), bytes);
    }
}

#[test]
fn native_architecture_matches_the_host() {
    let arch = Architecture::from_native();
    assert_eq!(arch.byte_width(), std::mem::size_of::<usize>());
    let value: usize = 0x0102_0304;
    let bytes = value.to_ne_bytes();
    assert_eq!(arch.address_from_bytes(&bytes), Ok(value as u64));
    assert_eq!(arch.bytes_from_address(value as u64), bytes.to_vec());
    let expected = if u16::from_ne_bytes([1, 0]) == 1 {
        ByteOrder::LittleEndian
    } else {
        ByteOrder::BigEndian
    };
    assert_eq!(ByteOrder::native(), expected);
}

#[test]
fn order_of_the_bytes_of_one() {
    assert_eq!(ByteOrder::order_of_one([1, 0]), ByteOrder::LittleEndian);
    assert_eq!(ByteOrder::order_of_one([0, 1]), ByteOrder::BigEndian);
    assert_eq!(ByteOrder::order_of_one(1u16.to_le_bytes()), ByteOrder::LittleEndian);
    assert_eq!(ByteOrder::order_of_one(1u16.to_be_bytes()), ByteOrder::BigEndian);
    assert_eq!(ByteOrder::order_of_one(1u16.to_ne_bytes()), ByteOrder::native());
}
