use vstd::prelude::*;
use vstd::std_specs::cmp::PartialEqSpecImpl;

use crate::ip::ipv4_address::be_value;
use crate::text::ascii::same_text;

verus! {

/// The eight 16-bit segments of sixteen bytes: segment `i` is made of the
/// bytes `2i` and `2i + 1`, the high byte first.
pub open spec fn segments_of(octets: Seq<u8>) -> Seq<u16> {
    Seq::new(8, |i: int| (octets[2 * i] as int * 256 + octets[2 * i + 1] as int) as u16)
}

/// The sixteen bytes of eight 16-bit segments, the high byte of each first.
pub open spec fn octets_of(segments: Seq<u16>) -> Seq<u8> {
    Seq::new(
        16,
        |i: int|
            if i % 2 == 0 {
                (segments[i / 2] / 256) as u8
            } else {
                (segments[i / 2] % 256) as u8
            },
    )
}

/// Bytes and segments are two readings of the same address.
pub proof fn lemma_segments_octets(octets: Seq<u8>, segments: Seq<u16>)
    ensures
        octets.len() == 16 ==> octets_of(segments_of(octets)) == octets,
        segments.len() == 8 ==> segments_of(octets_of(segments)) == segments,
        segments_of(octets).len() == 8,
        octets_of(segments).len() == 16,
{
    if octets.len() == 16 {
        assert(octets_of(segments_of(octets)) =~= octets);
    }
    if segments.len() == 8 {
        assert(segments_of(octets_of(segments)) =~= segments);
    }
}

/// The last `count` bytes that write the number, the most significant of
/// them first.
pub open spec fn be_bytes(value: nat, count: nat) -> Seq<u8>
    decreases count,
{
    if count == 0 {
        Seq::empty()
    } else {
        be_bytes(value / 256, (count - 1) as nat).push((value % 256) as u8)
    }
}

/// 256 to the power of `count`.
pub open spec fn pow256(count: nat) -> nat
    decreases count,
{
    if count == 0 {
        1
    } else {
        256 * pow256((count - 1) as nat)
    }
}

/// The bytes of a number that fits in them write the number.
pub proof fn lemma_be_bytes(value: nat, count: nat)
    requires
        value < pow256(count),
    ensures
        be_bytes(value, count).len() == count,
        be_value(be_bytes(value, count)) == value,
    decreases count,
{
    if count > 0 {
        lemma_be_bytes(value / 256, (count - 1) as nat);
        let bytes = be_bytes(value, count);
        assert(bytes.drop_last() =~= be_bytes(value / 256, (count - 1) as nat));
    }
}

/// The bytes write a number below 256 to the power of their count, and are
/// the bytes of that number.
pub proof fn lemma_be_value(octets: Seq<u8>)
    ensures
        be_value(octets) < pow256(octets.len()),
        be_bytes(be_value(octets), octets.len()) == octets,
    decreases octets.len(),
{
    if octets.len() > 0 {
        lemma_be_value(octets.drop_last());
        let value = be_value(octets);
        assert(value / 256 == be_value(octets.drop_last()));
        assert(be_bytes(value, octets.len()) =~= octets);
    }
}

/// The powers of 256 grow with the exponent.
pub proof fn lemma_pow256_monotonic(low: nat, high: nat)
    requires
        low <= high,
    ensures
        1 <= pow256(low) <= pow256(high),
    decreases high,
{
    if high > 0 {
        if low < high {
            lemma_pow256_monotonic(low, (high - 1) as nat);
        } else {
            lemma_pow256_monotonic((low - 1) as nat, (high - 1) as nat);
        }
    }
}

/// Sixteen bytes write the numbers of 128 bits.
pub proof fn lemma_pow256_16()
    ensures
        pow256(16) == 0x1_0000_0000_0000_0000_0000_0000_0000_0000,
{
    reveal_with_fuel(pow256, 17);
}

/// An IPv6 address. (a:b:c:d:e:f:g:h)
#[derive(Copy, Clone, PartialOrd, Ord, Eq, Hash, Debug)]
pub struct IPv6Address {
    address: [u8; 16],
}

impl View for IPv6Address {
    type V = Seq<u8>;

    /// The sixteen bytes, the first of the text first.
    closed spec fn view(&self) -> Seq<u8> {
        self.address@
    }
}

impl PartialEq for IPv6Address {
    fn eq(&self, other: &Self) -> (r: bool) {
        same_text(self.address.as_slice(), other.address.as_slice())
    }
}

impl PartialEqSpecImpl for IPv6Address {
    open spec fn obeys_eq_spec() -> bool {
        true
    }

    /// Two addresses are equal where their bytes are.
    open spec fn eq_spec(&self, other: &Self) -> bool {
        self@ == other@
    }
}

impl IPv6Address {
    /// An address has sixteen bytes, and two addresses with the same bytes
    /// are the same address.
    pub proof fn lemma_view(self, other: Self)
        ensures
            self@.len() == 16,
            self@ == other@ ==> self == other,
    {
        if self@ == other@ {
            assert(self.address =~= other.address);
        }
    }

    /// The unspecified address. (::)
    pub fn unspecified() -> (r: Self)
        ensures
            r@ == Seq::new(16, |i: int| 0u8),
    {
        let r = Self::new([0, 0, 0, 0, 0, 0, 0, 0, 0, 0, 0, 0, 0, 0, 0, 0]);
        assert(r@ =~= Seq::new(16, |i: int| 0u8));
        r
    }

    /// The localhost address. (::1)
    pub fn localhost() -> (r: Self)
        ensures
            r@ == Seq::new(16, |i: int| 0u8).update(15, 1u8),
    {
        let r = Self::new([0, 0, 0, 0, 0, 0, 0, 0, 0, 0, 0, 0, 0, 0, 0, 1]);
        assert(r@ =~= Seq::new(16, |i: int| 0u8).update(15, 1u8));
        r
    }

    /// Creates a new IPv6 address. [a-high, a-low, b-high, b-low, ..., h-high, h-low]
    pub fn new(address: [u8; 16]) -> (r: Self)
        ensures
            r@ == address@,
    {
        Self { address }
    }

    /// Creates an IPv6 address from the `segments`. [a, b, c, d, e, f, g, h]
    pub fn from_segments(segments: [u16; 8]) -> (r: Self)
        ensures
            r@ == octets_of(segments@),
    {
        let r = Self {
            address: [
                (segments[0] / 256) as u8,
                (segments[0] % 256) as u8,
                (segments[1] / 256) as u8,
                (segments[1] % 256) as u8,
                (segments[2] / 256) as u8,
                (segments[2] % 256) as u8,
                (segments[3] / 256) as u8,
                (segments[3] % 256) as u8,
                (segments[4] / 256) as u8,
                (segments[4] % 256) as u8,
                (segments[5] / 256) as u8,
                (segments[5] % 256) as u8,
                (segments[6] / 256) as u8,
                (segments[6] % 256) as u8,
                (segments[7] / 256) as u8,
                (segments[7] % 256) as u8,
            ],
        };
        assert(r@ =~= octets_of(segments@));
        r
    }

    /// Gets the address. [a-high, a-low, b-high, b-low, ..., h-high, h-low]
    pub fn address(&self) -> (r: [u8; 16])
        ensures
            r@ == self@,
    {
        self.address
    }

    /// Gets the segments. [a, b, c, d, e, f, g, h]
    pub fn segments(&self) -> (r: [u16; 8])
        ensures
            r@ == segments_of(self@),
    {
        let a = &self.address;
        let r: [u16; 8] = [
            (a[0] as u16) * 256 + (a[1] as u16),
            (a[2] as u16) * 256 + (a[3] as u16),
            (a[4] as u16) * 256 + (a[5] as u16),
            (a[6] as u16) * 256 + (a[7] as u16),
            (a[8] as u16) * 256 + (a[9] as u16),
            (a[10] as u16) * 256 + (a[11] as u16),
            (a[12] as u16) * 256 + (a[13] as u16),
            (a[14] as u16) * 256 + (a[15] as u16),
        ];
        assert(r@ =~= segments_of(self@));
        r
    }
}

impl From<[u8; 16]> for IPv6Address {
    fn from(address: [u8; 16]) -> (r: Self)
        ensures
            r@ == address@,
    {
        Self { address }
    }
}

impl vstd::std_specs::convert::FromSpecImpl<[u8; 16]> for IPv6Address {
    open spec fn obeys_from_spec() -> bool {
        true
    }

    closed spec fn from_spec(v: [u8; 16]) -> Self {
        IPv6Address { address: v }
    }
}

impl From<IPv6Address> for [u8; 16] {
    fn from(ip: IPv6Address) -> (r: Self)
        ensures
            r@ == ip@,
    {
        ip.address
    }
}

impl vstd::std_specs::convert::FromSpecImpl<IPv6Address> for [u8; 16] {
    open spec fn obeys_from_spec() -> bool {
        true
    }

    closed spec fn from_spec(v: IPv6Address) -> Self {
        v.address
    }
}

impl From<[u16; 8]> for IPv6Address {
    fn from(segments: [u16; 8]) -> (r: Self)
        ensures
            r@ == octets_of(segments@),
    {
        Self::from_segments(segments)
    }
}

impl vstd::std_specs::convert::FromSpecImpl<[u16; 8]> for IPv6Address {
    /// The outcome is stated by the `ensures` of `from`, over views.
    open spec fn obeys_from_spec() -> bool {
        false
    }

    open spec fn from_spec(v: [u16; 8]) -> Self {
        arbitrary()
    }
}

impl From<IPv6Address> for [u16; 8] {
    fn from(ip: IPv6Address) -> (r: Self)
        ensures
            r@ == segments_of(ip@),
    {
        ip.segments()
    }
}

impl vstd::std_specs::convert::FromSpecImpl<IPv6Address> for [u16; 8] {
    /// The outcome is stated by the `ensures` of `from`, over views.
    open spec fn obeys_from_spec() -> bool {
        false
    }

    open spec fn from_spec(v: IPv6Address) -> Self {
        arbitrary()
    }
}

impl From<u128> for IPv6Address {
    /// The address whose sixteen bytes write the number, the most
    /// significant byte first.
    fn from(value: u128) -> (r: Self)
        ensures
            be_value(r@) == value,
    {
        let mut address: [u8; 16] = [0, 0, 0, 0, 0, 0, 0, 0, 0, 0, 0, 0, 0, 0, 0, 0];
        let mut rest: u128 = value;
        let mut i: usize = 16;
        proof {
            assert(address@.skip(16) =~= Seq::<u8>::empty());
            assert(be_bytes(value as nat, 16) + Seq::<u8>::empty() =~= be_bytes(value as nat, 16));
        }
        while i > 0
            invariant
                0 <= i <= 16,
                be_bytes(value as nat, 16) == be_bytes(rest as nat, i as nat) + address@.skip(
                    i as int,
                ),
            decreases i,
        {
            let ghost before = address@;
            i -= 1;
            address[i] = (rest % 256) as u8;
            proof {
                assert(address@.skip(i as int) =~= seq![(rest % 256) as u8] + before.skip(
                    i as int + 1,
                ));
                assert(be_bytes((rest / 256) as nat, i as nat).push((rest % 256) as u8)
                    + before.skip(i as int + 1) =~= be_bytes((rest / 256) as nat, i as nat)
                    + address@.skip(i as int));
            }
            rest = rest / 256;
        }
        let r = Self { address };
        proof {
            assert(address@.skip(0) =~= address@);
            assert(be_bytes(rest as nat, 0) + address@ =~= address@);
            lemma_pow256_16();
            lemma_be_bytes(value as nat, 16);
        }
        r
    }
}

impl vstd::std_specs::convert::FromSpecImpl<u128> for IPv6Address {
    /// The outcome is stated by the `ensures` of `from`, over views.
    open spec fn obeys_from_spec() -> bool {
        false
    }

    open spec fn from_spec(v: u128) -> Self {
        arbitrary()
    }
}

impl From<IPv6Address> for u128 {
    /// The number that the sixteen bytes of the address write, the most
    /// significant byte first.
    fn from(ip: IPv6Address) -> (r: Self)
        ensures
            r == be_value(ip@),
    {
        let mut acc: u128 = 0;
        let mut i: usize = 0;
        proof {
            assert(ip@.take(0) =~= Seq::<u8>::empty());
        }
        while i < 16
            invariant
                0 <= i <= 16,
                ip@.len() == 16,
                acc == be_value(ip@.take(i as int)),
            decreases 16 - i,
        {
            proof {
                let upto = ip@.take(i as int + 1);
                assert(upto.drop_last() =~= ip@.take(i as int));
                lemma_be_value(upto);
                lemma_pow256_16();
                lemma_pow256_monotonic(upto.len(), 16);
            }
            acc = acc * 256 + (ip.address[i] as u128);
            i += 1;
        }
        proof {
            assert(ip@.take(16) =~= ip@);
        }
        acc
    }
}

impl vstd::std_specs::convert::FromSpecImpl<IPv6Address> for u128 {
    /// The outcome is stated by the `ensures` of `from`, over views.
    open spec fn obeys_from_spec() -> bool {
        false
    }

    open spec fn from_spec(v: IPv6Address) -> Self {
        arbitrary()
    }
}

impl Default for IPv6Address {
    /// The unspecified address.
    fn default() -> (r: Self)
        ensures
            r@ == Seq::new(16, |i: int| 0u8),
    {
        Self::unspecified()
    }
}

} // verus!
