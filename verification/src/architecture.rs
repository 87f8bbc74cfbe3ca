//! Pointer widths and byte orders of target processes, and the conversion
//! between address-sized integers and their bytes in memory.

use vstd::prelude::*;
use crate::error::MemoryError;

verus! {

/// An absolute address in the address space of a process.
pub type Address = u64;

/// The number of bytes that a pointer of the target process occupies.
#[derive(Debug, Clone, Copy, PartialEq, Eq, Structural)]
pub enum PointerWidth {
    Bits8,
    Bits16,
    Bits32,
    Bits64,
}

/// The order in which the bytes of an integer lie in memory.
#[derive(Debug, Clone, Copy, PartialEq, Eq, Structural)]
pub enum ByteOrder {
    /// Least significant byte first.
    LittleEndian,
    /// Most significant byte first.
    BigEndian,
}

/// How a target process lays out its pointers.
#[derive(Debug, Clone, Copy, PartialEq, Eq, Structural)]
pub struct Architecture {
    pub width: PointerWidth,
    pub order: ByteOrder,
}

/// `256` to the power `n`: the number of values that `n` bytes can hold.
pub open spec fn radix(n: nat) -> nat
    decreases n,
{
    if n == 0 {
        1
    } else {
        256 * radix((n - 1) as nat)
    }
}

/// The number that `bytes` spell when the first byte is the least significant.
pub open spec fn le_value(bytes: Seq<u8>) -> nat
    decreases bytes.len(),
{
    if bytes.len() == 0 {
        0
    } else {
        bytes[0] as nat + 256 * le_value(bytes.skip(1))
    }
}

/// The `width` low bytes of `value`, least significant first.
pub open spec fn le_bytes(value: nat, width: nat) -> Seq<u8>
    decreases width,
{
    if width == 0 {
        Seq::empty()
    } else {
        seq![(value % 256) as u8] + le_bytes(value / 256, (width - 1) as nat)
    }
}

/// The number that `bytes` spell in the given byte order.
pub open spec fn value_of(order: ByteOrder, bytes: Seq<u8>) -> nat {
    match order {
        ByteOrder::LittleEndian => le_value(bytes),
        ByteOrder::BigEndian => le_value(bytes.reverse()),
    }
}

/// The `width` low bytes of `value` in the given byte order.
pub open spec fn bytes_of(order: ByteOrder, value: nat, width: nat) -> Seq<u8> {
    match order {
        ByteOrder::LittleEndian => le_bytes(value, width),
        ByteOrder::BigEndian => le_bytes(value, width).reverse(),
    }
}

/// The number of values of one, two, four and eight bytes.
pub proof fn lemma_radix_values()
    ensures
        radix(1) == 0x100,
        radix(2) == 0x1_0000,
        radix(4) == 0x1_0000_0000,
        radix(8) == 0x1_0000_0000_0000_0000,
{
    reveal_with_fuel(radix, 9);
}

/// `n` bytes spell a number below `radix(n)`.
pub proof fn lemma_le_value_bound(bytes: Seq<u8>)
    ensures
        le_value(bytes) < radix(bytes.len()),
    decreases bytes.len(),
{
    if bytes.len() > 0 {
        lemma_le_value_bound(bytes.skip(1));
    }
}

/// A number is written out in as many bytes as asked for.
pub proof fn lemma_le_bytes_len(value: nat, width: nat)
    ensures
        le_bytes(value, width).len() == width,
    decreases width,
{
    if width > 0 {
        lemma_le_bytes_len(value / 256, (width - 1) as nat);
    }
}

/// Writing a number out and reading it back keeps what fits in `width` bytes.
pub proof fn lemma_le_value_of_bytes(value: nat, width: nat)
    ensures
        le_value(le_bytes(value, width)) == value % radix(width),
    decreases width,
{
    if width > 0 {
        let rest = le_bytes(value / 256, (width - 1) as nat);
        let all = le_bytes(value, width);
        lemma_le_value_of_bytes(value / 256, (width - 1) as nat);
        assert(all.skip(1) =~= rest);
        assert(all[0] == (value % 256) as u8);
        let r = radix((width - 1) as nat);
        lemma_radix_positive((width - 1) as nat);
        lemma_mod_split(value, r);
    }
}

/// Any number of bytes holds at least one value.
pub proof fn lemma_radix_positive(n: nat)
    ensures
        radix(n) > 0,
    decreases n,
{
    if n > 0 {
        lemma_radix_positive((n - 1) as nat);
    }
}

/// `v % (256 * r)` splits into the low byte and the rest.
proof fn lemma_mod_split(v: nat, r: nat)
    requires
        r > 0,
    ensures
        v % (256 * r) == v % 256 + 256 * ((v / 256) % r),
{
    let q = v / 256;
    let low = v % 256;
    assert(v == 256 * q + low) by (nonlinear_arith)
        requires
            q == v / 256,
            low == v % 256,
    ;
    let qq = q / r;
    let qr = q % r;
    assert(q == r * qq + qr) by (nonlinear_arith)
        requires
            qq == q / r,
            qr == q % r,
            r > 0,
    ;
    assert(0 <= qr < r) by (nonlinear_arith)
        requires
            qr == q % r,
            r > 0,
    ;
    let m = 256 * r;
    let x = low + 256 * qr;
    assert(v == m * qq + x) by (nonlinear_arith)
        requires
            v == 256 * q + low,
            q == r * qq + qr,
            m == 256 * r,
            x == low + 256 * qr,
    ;
    assert(0 <= x < m) by (nonlinear_arith)
        requires
            x == low + 256 * qr,
            0 <= low < 256,
            0 <= qr < r,
            m == 256 * r,
    ;
    vstd::arithmetic::div_mod::lemma_fundamental_div_mod_converse(v as int, m as int, qq as int, x as int);
}

/// Reading bytes as a number and writing it out again gives the same bytes.
pub proof fn lemma_le_bytes_of_value(bytes: Seq<u8>)
    ensures
        le_bytes(le_value(bytes), bytes.len()) == bytes,
    decreases bytes.len(),
{
    if bytes.len() > 0 {
        let rest = bytes.skip(1);
        lemma_le_bytes_of_value(rest);
        let v = le_value(bytes);
        let b = bytes[0] as nat;
        let t = le_value(rest);
        assert(v % 256 == b && v / 256 == t) by (nonlinear_arith)
            requires
                v == b + 256 * t,
                0 <= b < 256,
        ;
        assert(le_bytes(v, bytes.len()) =~= bytes);
    } else {
        assert(le_bytes(le_value(bytes), 0) =~= bytes);
    }
}

/// Peeling bytes off the low end reaches the same bytes as taking them from the front.
pub proof fn lemma_le_bytes_push(value: nat, width: nat)
    ensures
        radix(width) > 0,
        le_bytes(value, width + 1) == le_bytes(value, width).push(((value / radix(width)) % 256) as u8),
    decreases width,
{
    lemma_radix_positive(width);
    if width == 0 {
        assert(le_bytes(value / 256, 0) =~= Seq::<u8>::empty());
        assert(le_bytes(value, 1) =~= le_bytes(value, 0).push(((value / 1) % 256) as u8));
    } else {
        let w1 = (width - 1) as nat;
        lemma_le_bytes_push(value / 256, w1);
        lemma_radix_positive(w1);
        vstd::arithmetic::div_mod::lemma_div_denominator(value as int, 256, radix(w1) as int);
        assert(256 * radix(w1) == radix(width));
        assert((value / 256) / radix(w1) == value / radix(width));
        assert(le_bytes(value, width + 1) =~= le_bytes(value, width).push(
            ((value / radix(width)) % 256) as u8,
        ));
    }
}

impl PointerWidth {
    /// The width in bytes.
    pub open spec fn bytes(self) -> nat {
        match self {
            PointerWidth::Bits8 => 1,
            PointerWidth::Bits16 => 2,
            PointerWidth::Bits32 => 4,
            PointerWidth::Bits64 => 8,
        }
    }
}

impl Architecture {
    /// The number of bytes of one pointer.
    pub open spec fn spec_byte_width(self) -> nat {
        self.width.bytes()
    }

    /// The address that `bytes` hold under this architecture's byte order.
    pub open spec fn spec_address(self, bytes: Seq<u8>) -> nat {
        value_of(self.order, bytes)
    }

    /// The bytes that hold `addr` under this architecture: its low
    /// `spec_byte_width()` bytes, in this architecture's byte order.
    pub open spec fn spec_bytes(self, addr: Address) -> Seq<u8> {
        bytes_of(self.order, addr as nat, self.spec_byte_width())
    }

    /// Whether `addr` fits in one pointer of this architecture.
    pub open spec fn representable(self, addr: Address) -> bool {
        (addr as nat) < radix(self.spec_byte_width())
    }

    /// The architecture with pointers of this width and byte order.
    pub fn new(width: PointerWidth, order: ByteOrder) -> (r: Architecture)
        ensures
            r.width == width,
            r.order == order,
    {
        Architecture { width, order }
    }

    /// The architecture of the running process itself: pointers as wide as
    /// `usize`, in the byte order of the host, whichever that is.
    pub fn from_native() -> (r: Architecture)
        ensures
            r.spec_byte_width() * 8 == usize::BITS,
    {
        let width = if usize::BITS == 64 {
            PointerWidth::Bits64
        } else {
            PointerWidth::Bits32
        };
        Architecture { width, order: ByteOrder::native() }
    }

    /// The number of bytes of one pointer.
    pub fn byte_width(&self) -> (w: usize)
        ensures
            w == self.spec_byte_width(),
            w == 1 || w == 2 || w == 4 || w == 8,
    {
        match self.width {
            PointerWidth::Bits8 => 1,
            PointerWidth::Bits16 => 2,
            PointerWidth::Bits32 => 4,
            PointerWidth::Bits64 => 8,
        }
    }

    /// Reads `buf` as one pointer of this architecture. The buffer must be
    /// exactly one pointer long.
    pub fn address_from_bytes(&self, buf: &[u8]) -> (r: Result<Address, MemoryError>)
        ensures
            buf@.len() != self.spec_byte_width() ==> r == Err::<Address, MemoryError>(
                MemoryError::InvalidBufferLength,
            ),
            buf@.len() == self.spec_byte_width() ==> r == Ok::<Address, MemoryError>(
                self.spec_address(buf@) as u64,
            ) && self.spec_address(buf@) <= u64::MAX,
    {
        let n: usize = buf.len();
        if n != self.byte_width() {
            return Err(MemoryError::InvalidBufferLength);
        }
        let mut acc: u64 = 0;
        match self.order {
            ByteOrder::LittleEndian => {
                let mut i: usize = n;
                assert(buf@.skip(n as int) =~= Seq::<u8>::empty());
                while i > 0
                    invariant
                        i <= n <= 8,
                        n == buf@.len(),
                        acc == le_value(buf@.skip(i as int)),
                    decreases i,
                {
                    i = i - 1;
                    proof {
                        let tail = buf@.skip(i as int);
                        assert(tail.skip(1) =~= buf@.skip(i + 1));
                        lemma_le_value_bound(tail);
                        lemma_radix_grows(tail.len(), 8);
                        lemma_radix_values();
                    }
                    acc = acc * 256 + buf[i] as u64;
                }
                assert(buf@.skip(0) =~= buf@);
            },
            ByteOrder::BigEndian => {
                let mut i: usize = 0;
                assert(buf@.take(0).reverse() =~= Seq::<u8>::empty());
                while i < n
                    invariant
                        i <= n <= 8,
                        n == buf@.len(),
                        acc == le_value(buf@.take(i as int).reverse()),
                    decreases n - i,
                {
                    proof {
                        let head = buf@.take(i + 1).reverse();
                        assert(head.skip(1) =~= buf@.take(i as int).reverse());
                        assert(head[0] == buf@[i as int]);
                        lemma_le_value_bound(head);
                        lemma_radix_grows(head.len(), 8);
                        lemma_radix_values();
                    }
                    acc = acc * 256 + buf[i] as u64;
                    i = i + 1;
                }
                assert(buf@.take(n as int) =~= buf@);
            },
        }
        Ok(acc)
    }

    /// Writes `addr` out as one pointer of this architecture. An address too
    /// large for the pointer width loses its high bytes.
    pub fn bytes_from_address(&self, addr: Address) -> (r: Vec<u8>)
        ensures
            r@ == self.spec_bytes(addr),
            r@.len() == self.spec_byte_width(),
    {
        let w: usize = self.byte_width();
        let mut out: Vec<u8> = Vec::new();
        let mut rest: u64 = addr;
        let mut i: usize = 0;
        proof {
            lemma_le_bytes_len(addr as nat, w as nat);
            assert(le_bytes(addr as nat, 0) =~= Seq::<u8>::empty());
            assert(Seq::<u8>::empty().reverse() =~= Seq::<u8>::empty());
        }
        while i < w
            invariant
                i <= w <= 8,
                radix(i as nat) > 0,
                rest == (addr as nat) / radix(i as nat),
                out@ == bytes_of(self.order, addr as nat, i as nat),
                out@.len() == i,
            decreases w - i,
        {
            let byte: u8 = (rest % 256) as u8;
            proof {
                lemma_le_bytes_push(addr as nat, i as nat);
                lemma_le_bytes_len(addr as nat, i as nat);
                lemma_radix_positive((i + 1) as nat);
                vstd::arithmetic::div_mod::lemma_div_denominator(
                    addr as int,
                    radix(i as nat) as int,
                    256,
                );
                assert(radix(i as nat) * 256 == radix((i + 1) as nat));
                let low = le_bytes(addr as nat, i as nat);
                assert(low.push(byte).reverse() =~= low.reverse().insert(0, byte));
            }
            match self.order {
                ByteOrder::LittleEndian => {
                    out.push(byte);
                },
                ByteOrder::BigEndian => {
                    out.insert(0, byte);
                },
            }
            rest = rest / 256;
            i = i + 1;
        }
        out
    }
}

/// More bytes hold more values.
pub proof fn lemma_radix_grows(a: nat, b: nat)
    requires
        a <= b,
    ensures
        radix(a) <= radix(b),
    decreases b,
{
    if a < b {
        lemma_radix_grows(a, (b - 1) as nat);
    }
}

/// `u16::to_ne_bytes`: the two bytes of `x` as they lie in the host's memory,
/// which is one of the two byte orders. Which one depends on the machine.
#[verifier::external_body]
fn host_bytes_of_u16(x: u16) -> (r: [u8; 2])
    ensures
        r@ == le_bytes(x as nat, 2) || r@ == le_bytes(x as nat, 2).reverse(),
{
    x.to_ne_bytes()
}

impl ByteOrder {
    /// The byte order of the machine that runs this code; either can come back.
    pub fn native() -> ByteOrder {
        let probe: [u8; 2] = host_bytes_of_u16(1);
        ByteOrder::order_of_one(probe)
    }

    /// The byte order in which `bytes` hold the number one: least significant
    /// byte first where the first byte is the one, most significant first
    /// otherwise.
    pub open spec fn spec_order_of_one(bytes: Seq<u8>) -> ByteOrder {
        if bytes.len() > 0 && bytes[0] == 1 {
            ByteOrder::LittleEndian
        } else {
            ByteOrder::BigEndian
        }
    }

    /// Computes [`ByteOrder::spec_order_of_one`].
    pub fn order_of_one(bytes: [u8; 2]) -> (r: ByteOrder)
        ensures
            r == ByteOrder::spec_order_of_one(bytes@),
    {
        if bytes[0] == 1 {
            ByteOrder::LittleEndian
        } else {
            ByteOrder::BigEndian
        }
    }
}

/// The number one, written out in two bytes in either byte order, is read
/// back as that byte order.
pub proof fn lemma_order_of_one(order: ByteOrder)
    ensures
        ByteOrder::spec_order_of_one(bytes_of(order, 1, 2)) == order,
{
    reveal_with_fuel(le_bytes, 3);
    let low = le_bytes(1, 2);
    assert(low[0] == 1u8);
    assert(low[1] == 0u8);
    assert(low.len() == 2);
    assert(low.reverse()[0] == low[1]);
}

/// A pointer written out and read back is the same address, as long as the
/// address fits in the pointer width.
pub proof fn lemma_address_round_trip(arch: Architecture, addr: Address)
    requires
        arch.representable(addr),
    ensures
        arch.spec_bytes(addr).len() == arch.spec_byte_width(),
        arch.spec_address(arch.spec_bytes(addr)) == addr,
{
    let w = arch.spec_byte_width();
    lemma_le_bytes_len(addr as nat, w);
    lemma_le_value_of_bytes(addr as nat, w);
    vstd::arithmetic::div_mod::lemma_small_mod(addr as nat, radix(w));
    let low = le_bytes(addr as nat, w);
    assert(low.reverse().reverse() =~= low);
}

/// One pointer's worth of bytes read as an address and written out again is
/// the same bytes.
pub proof fn lemma_bytes_round_trip(arch: Architecture, bytes: Seq<u8>)
    requires
        bytes.len() == arch.spec_byte_width(),
    ensures
        arch.spec_address(bytes) <= u64::MAX,
        arch.spec_bytes(arch.spec_address(bytes) as u64) == bytes,
{
    let w = arch.spec_byte_width();
    lemma_radix_values();
    lemma_radix_grows(w, 8);
    match arch.order {
        ByteOrder::LittleEndian => {
            lemma_le_value_bound(bytes);
            lemma_le_bytes_of_value(bytes);
        },
        ByteOrder::BigEndian => {
            lemma_le_value_bound(bytes.reverse());
            lemma_le_bytes_of_value(bytes.reverse());
            assert(bytes.reverse().reverse() =~= bytes);
        },
    }
}

} // verus!
