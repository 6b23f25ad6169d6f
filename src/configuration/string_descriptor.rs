//! The string descriptors held in a chip configuration.
//!
//! The configuration holds the manufacturer, product and serial number
//! strings one after another in a 128-byte block. Each part starts with its
//! own length in bytes, header included, and the descriptor type `0x03`,
//! followed by little-endian UTF-16 units.
use vstd::prelude::*;

verus! {

/// Size of the block that holds the string descriptors.
pub const STRING_DESCRIPTORS_LEN: usize = 128;

/// Descriptor type of a string descriptor.
pub const STRING_DESCRIPTOR_TYPE: u8 = 0x03;

/// Maximum length, in UTF-16 units, of the manufacturer name.
pub const MAX_MANUFACTURER_UNITS: usize = 30;

/// Maximum length, in UTF-16 units, of the product name.
pub const MAX_PRODUCT_UNITS: usize = 62;

/// Maximum length, in UTF-16 units, of the serial number.
pub const MAX_SERIAL_NUMBER_UNITS: usize = 30;

/// Where part `index` of the block `d` starts: each part's first byte is its
/// length.
pub open spec fn part_start(d: Seq<u8>, index: int) -> int
    decreases index,
{
    if index <= 0 {
        0
    } else {
        part_start(d, index - 1) + d[part_start(d, index - 1)] as int
    }
}

/// The part starting at `start` lies within the block and has a full header.
pub open spec fn part_fits(d: Seq<u8>, start: int) -> bool {
    &&& 0 <= start < d.len()
    &&& d[start] >= 2
    &&& start + d[start] as int <= d.len()
}

/// All three parts lie within the block.
pub open spec fn parts_fit(d: Seq<u8>) -> bool {
    &&& part_fits(d, part_start(d, 0))
    &&& part_fits(d, part_start(d, 1))
    &&& part_fits(d, part_start(d, 2))
}

/// The UTF-16 units of the part starting at `start`; an odd trailing byte is
/// ignored.
pub open spec fn part_units(d: Seq<u8>, start: int) -> Seq<u16> {
    Seq::new(
        ((d[start] - 2) / 2) as nat,
        |j: int| (d[start + 2 + 2 * j] as int + 256 * d[start + 3 + 2 * j] as int) as u16,
    )
}

/// The little-endian bytes of `units`.
pub open spec fn le_bytes(units: Seq<u16>) -> Seq<u8> {
    Seq::new(
        2 * units.len(),
        |i: int|
            if i % 2 == 0 {
                (units[i / 2] & 0xff) as u8
            } else {
                (units[i / 2] >> 8) as u8
            },
    )
}

/// One part: its header, then its bytes.
pub open spec fn part_bytes(bytes: Seq<u8>) -> Seq<u8> {
    seq![(bytes.len() + 2) as u8, STRING_DESCRIPTOR_TYPE] + bytes
}

/// The block holding parts `m`, `p` and `s`, padded with zeros.
pub open spec fn block_of(m: Seq<u8>, p: Seq<u8>, s: Seq<u8>) -> Seq<u8> {
    let used = part_bytes(m) + part_bytes(p) + part_bytes(s);
    used + Seq::new((STRING_DESCRIPTORS_LEN - used.len()) as nat, |i: int| 0u8)
}

/// What `str::encode_utf16` makes of `s`.
pub uninterp spec fn utf16_of(s: Seq<char>) -> Seq<u16>;

/// What `String::from_utf16_lossy` makes of `units`.
pub uninterp spec fn from_utf16_lossy_of(units: Seq<u16>) -> Seq<char>;

/// Relies on `str::encode_utf16`: the UTF-16 units of `s`, which depend on
/// `s` alone.
#[verifier::external_body]
fn utf16_units(s: &str) -> (r: Vec<u16>)
    ensures
        r@ == utf16_of(s@),
{
    s.encode_utf16().collect()
}

/// Relies on `String::from_utf16_lossy`: the text of `units`, with each
/// invalid sequence replaced by U+FFFD; the text depends on the units alone.
#[verifier::external_body]
fn string_from_utf16_lossy(units: &[u16]) -> (r: String)
    ensures
        r@ == from_utf16_lossy_of(units@),
{
    String::from_utf16_lossy(units)
}

/// Whether all three parts of the block `d` lie within it.
pub fn string_parts_fit(d: &[u8]) -> (r: bool)
    ensures
        r == parts_fit(d@),
{
    let mut start: usize = 0;
    let mut k: usize = 0;
    while k < 3
        invariant
            k <= 3,
            start == part_start(d@, k as int),
            forall|j: int| 0 <= j < k ==> part_fits(d@, part_start(d@, j)),
        decreases 3 - k,
    {
        if start >= d.len() || d[start] < 2 || d[start] as usize > d.len() - start {
            return false;
        }
        start = start + d[start] as usize;
        k = k + 1;
    }
    true
}

/// The UTF-16 units of part `index` of the block, decoded.
fn extract_part(descriptors: &[u8], index: usize) -> (r: String)
    requires
        index < 3,
        parts_fit(descriptors@),
    ensures
        r@ == from_utf16_lossy_of(part_units(descriptors@, part_start(descriptors@, index as int))),
{
    let ghost d = descriptors@;
    let mut start: usize = 0;
    let mut k: usize = 0;
    while k < index
        invariant
            k <= index < 3,
            parts_fit(d),
            d == descriptors@,
            start == part_start(d, k as int),
        decreases index - k,
    {
        assert(part_fits(d, part_start(d, k as int)));
        start = start + descriptors[start] as usize;
        k = k + 1;
    }
    assert(part_fits(d, start as int));
    let count: usize = (descriptors[start] as usize - 2) / 2;
    assert(2 * count + 2 <= d[start as int]);
    let mut units: Vec<u16> = Vec::new();
    let mut j: usize = 0;
    while j < count
        invariant
            part_fits(d, start as int),
            d == descriptors@,
            count == (d[start as int] - 2) / 2,
            2 * count + 2 <= d[start as int],
            start + d[start as int] <= descriptors.len(),
            j <= count,
            units@ == part_units(d, start as int).take(j as int),
        decreases count - j,
    {
        let lo = descriptors[start + 2 + 2 * j] as u16;
        let hi = descriptors[start + 3 + 2 * j] as u16;
        let u: u16 = lo + 256 * hi;
        units.push(u);
        proof {
            assert(part_units(d, start as int).take(j as int + 1) =~= part_units(d, start as int).take(
                j as int,
            ).push(u));
        }
        j = j + 1;
    }
    proof {
        assert(units@ =~= part_units(d, start as int));
    }
    string_from_utf16_lossy(units.as_slice())
}

/// The little-endian UTF-16 bytes of at most `max` units of `string`.
fn str_to_utf16(string: &str, max: usize) -> (r: Vec<u8>)
    requires
        max <= 62,
    ensures
        r@ == le_bytes(utf16_of(string@).take(if max < utf16_of(string@).len() { max as int } else { utf16_of(string@).len() as int })),
        r.len() <= 2 * max,
{
    let units = utf16_units(string);
    let n: usize = if max < units.len() { max } else { units.len() };
    let ghost taken = units@.take(n as int);
    let mut r: Vec<u8> = Vec::new();
    let mut i: usize = 0;
    while i < n
        invariant
            n <= units.len(),
            n <= max,
            taken == units@.take(n as int),
            i <= n,
            r@ == le_bytes(taken).take(2 * i as int),
        decreases n - i,
    {
        let u = units[i];
        r.push((u & 0xff) as u8);
        r.push((u >> 8) as u8);
        proof {
            assert(le_bytes(taken).take(2 * (i as int + 1)) =~= le_bytes(taken).take(2 * i as int).push(
                (u & 0xff) as u8,
            ).push((u >> 8) as u8));
        }
        i = i + 1;
    }
    proof {
        assert(le_bytes(taken).take(2 * n as int) =~= le_bytes(taken));
    }
    r
}

/// Append one part, header first, to `v`.
fn push_part(v: &mut Vec<u8>, bytes: &Vec<u8>)
    requires
        bytes.len() <= 124,
    ensures
        final(v)@ == old(v)@ + part_bytes(bytes@),
{
    v.push((bytes.len() + 2) as u8);
    v.push(STRING_DESCRIPTOR_TYPE);
    let ghost start = v@;
    let mut i: usize = 0;
    while i < bytes.len()
        invariant
            i <= bytes.len(),
            v@ == start + bytes@.take(i as int),
        decreases bytes.len() - i,
    {
        v.push(bytes[i]);
        proof {
            assert(bytes@.take(i as int + 1) =~= bytes@.take(i as int).push(bytes@[i as int]));
        }
        i = i + 1;
    }
    proof {
        assert(bytes@.take(bytes.len() as int) =~= bytes@);
        assert(start + bytes@ =~= old(v)@ + part_bytes(bytes@));
    }
}

/// The manufacturer, product and serial number strings of a configuration.
pub struct StringDescriptor {
    manufacturer: String,
    product: String,
    serial_number: String,
}

impl StringDescriptor {
    /// The manufacturer name.
    pub closed spec fn spec_manufacturer(&self) -> Seq<char> {
        self.manufacturer@
    }

    /// The product name.
    pub closed spec fn spec_product(&self) -> Seq<char> {
        self.product@
    }

    /// The serial number.
    pub closed spec fn spec_serial_number(&self) -> Seq<char> {
        self.serial_number@
    }

    /// The strings held in the block `descriptor`, whose three parts must lie
    /// within it.
    pub fn new(descriptor: [u8; 128]) -> (r: StringDescriptor)
        requires
            parts_fit(descriptor@),
        ensures
            r.spec_manufacturer() == from_utf16_lossy_of(part_units(descriptor@, part_start(descriptor@, 0))),
            r.spec_product() == from_utf16_lossy_of(part_units(descriptor@, part_start(descriptor@, 1))),
            r.spec_serial_number() == from_utf16_lossy_of(part_units(descriptor@, part_start(descriptor@, 2))),
    {
        let d = descriptor.as_slice();
        StringDescriptor {
            manufacturer: extract_part(d, 0),
            product: extract_part(d, 1),
            serial_number: extract_part(d, 2),
        }
    }

    /// Manufacturer name.
    pub fn manufacturer(&self) -> (r: &str)
        ensures
            r@ == self.spec_manufacturer(),
    {
        self.manufacturer.as_str()
    }

    /// Set the manufacturer name; at most 30 UTF-16 units of it are kept
    /// when the block is built.
    pub fn set_manufacturer(&mut self, manufacturer: &str)
        ensures
            final(self).spec_manufacturer() == manufacturer@,
            final(self).spec_product() == old(self).spec_product(),
            final(self).spec_serial_number() == old(self).spec_serial_number(),
    {
        self.manufacturer = manufacturer.to_owned();
    }

    /// Product name.
    pub fn product(&self) -> (r: &str)
        ensures
            r@ == self.spec_product(),
    {
        self.product.as_str()
    }

    /// Set the product name; at most 62 UTF-16 units of it are kept when the
    /// block is built.
    pub fn set_product(&mut self, product: &str)
        ensures
            final(self).spec_product() == product@,
            final(self).spec_manufacturer() == old(self).spec_manufacturer(),
            final(self).spec_serial_number() == old(self).spec_serial_number(),
    {
        self.product = product.to_owned();
    }

    /// Serial number.
    pub fn serial_number(&self) -> (r: &str)
        ensures
            r@ == self.spec_serial_number(),
    {
        self.serial_number.as_str()
    }

    /// Set the serial number; at most 30 UTF-16 units of it are kept when the
    /// block is built.
    pub fn set_serial_number(&mut self, serial_number: &str)
        ensures
            final(self).spec_serial_number() == serial_number@,
            final(self).spec_manufacturer() == old(self).spec_manufacturer(),
            final(self).spec_product() == old(self).spec_product(),
    {
        self.serial_number = serial_number.to_owned();
    }

    /// The block that holds the three strings, each cut to its maximum
    /// length; `None` when the three parts together exceed the block.
    pub fn as_ffi_descriptor(&self) -> (r: Option<[u8; 128]>)
        ensures
            ({
                let m = le_bytes(utf16_of(self.spec_manufacturer()).take(min_len(MAX_MANUFACTURER_UNITS, utf16_of(self.spec_manufacturer()).len())));
                let p = le_bytes(utf16_of(self.spec_product()).take(min_len(MAX_PRODUCT_UNITS, utf16_of(self.spec_product()).len())));
                let s = le_bytes(utf16_of(self.spec_serial_number()).take(min_len(MAX_SERIAL_NUMBER_UNITS, utf16_of(self.spec_serial_number()).len())));
                &&& r is Some <==> m.len() + p.len() + s.len() + 6 <= STRING_DESCRIPTORS_LEN
                &&& r matches Some(block) ==> block@ == block_of(m, p, s)
            }),
    {
        let m = str_to_utf16(self.manufacturer.as_str(), MAX_MANUFACTURER_UNITS);
        let p = str_to_utf16(self.product.as_str(), MAX_PRODUCT_UNITS);
        let s = str_to_utf16(self.serial_number.as_str(), MAX_SERIAL_NUMBER_UNITS);
        if m.len() + p.len() + s.len() + 6 > STRING_DESCRIPTORS_LEN {
            return None;
        }
        let mut v: Vec<u8> = Vec::new();
        push_part(&mut v, &m);
        push_part(&mut v, &p);
        push_part(&mut v, &s);
        let ghost used = v@;
        while v.len() < STRING_DESCRIPTORS_LEN
            invariant
                used.len() <= v.len() <= STRING_DESCRIPTORS_LEN,
                v@ == used + Seq::new((v.len() - used.len()) as nat, |i: int| 0u8),
            decreases STRING_DESCRIPTORS_LEN - v.len(),
        {
            v.push(0);
            proof {
                assert(used + Seq::new((v.len() - used.len()) as nat, |i: int| 0u8) =~= v@);
            }
        }
        let mut block = [0u8; 128];
        let mut i: usize = 0;
        while i < STRING_DESCRIPTORS_LEN
            invariant
                v.len() == STRING_DESCRIPTORS_LEN,
                i <= STRING_DESCRIPTORS_LEN,
                block@.len() == STRING_DESCRIPTORS_LEN,
                forall|j: int| 0 <= j < i ==> block@[j] == v@[j],
            decreases STRING_DESCRIPTORS_LEN - i,
        {
            block[i] = v[i];
            i = i + 1;
        }
        proof {
            assert(block@ =~= v@);
        }
        Some(block)
    }
}

/// The smaller of a maximum and a length.
pub open spec fn min_len(max: usize, len: nat) -> int {
    if (max as nat) < len {
        max as int
    } else {
        len as int
    }
}

} // verus!
