use vstd::prelude::*;
use vstd::std_specs::cmp::PartialEqSpecImpl;

verus! {

/// The number that the bytes write, the most significant byte first.
pub open spec fn be_value(octets: Seq<u8>) -> nat
    decreases octets.len(),
{
    if octets.len() == 0 {
        0
    } else {
        be_value(octets.drop_last()) * 256 + octets.last() as nat
    }
}

/// The number that four bytes write.
pub proof fn lemma_be_value_4(octets: Seq<u8>)
    requires
        octets.len() == 4,
    ensures
        be_value(octets) == ((octets[0] as nat * 256 + octets[1] as nat) * 256
            + octets[2] as nat) * 256 + octets[3] as nat,
{
    let s3 = octets.drop_last();
    let s2 = s3.drop_last();
    let s1 = s2.drop_last();
    assert(s1.drop_last().len() == 0);
    assert(be_value(s1) == octets[0] as nat) by {
        reveal_with_fuel(be_value, 2);
    }
    assert(be_value(s2) == be_value(s1) * 256 + octets[1] as nat);
    assert(be_value(s3) == be_value(s2) * 256 + octets[2] as nat);
}

/// An IPv4 address. (a.b.c.d)
#[derive(Copy, Clone, PartialOrd, Ord, Eq, Hash, Debug)]
pub struct IPv4Address {
    address: [u8; 4],
}

impl View for IPv4Address {
    type V = Seq<u8>;

    /// The four bytes, the first of the text first.
    closed spec fn view(&self) -> Seq<u8> {
        self.address@
    }
}

impl PartialEq for IPv4Address {
    fn eq(&self, other: &Self) -> (r: bool) {
        let r = self.address[0] == other.address[0] && self.address[1] == other.address[1]
            && self.address[2] == other.address[2] && self.address[3] == other.address[3];
        proof {
            if r {
                assert(self@ =~= other@);
            }
        }
        r
    }
}

impl PartialEqSpecImpl for IPv4Address {
    open spec fn obeys_eq_spec() -> bool {
        true
    }

    /// Two addresses are equal where their bytes are.
    open spec fn eq_spec(&self, other: &Self) -> bool {
        self@ == other@
    }
}

impl IPv4Address {
    /// An address has four bytes, and two addresses with the same bytes are
    /// the same address.
    pub proof fn lemma_view(self, other: Self)
        ensures
            self@.len() == 4,
            self@ == other@ ==> self == other,
    {
        if self@ == other@ {
            assert(self.address =~= other.address);
        }
    }

    /// The unspecified address. (0.0.0.0)
    pub fn unspecified() -> (r: Self)
        ensures
            r@ == seq![0u8, 0u8, 0u8, 0u8],
    {
        Self::new([0, 0, 0, 0])
    }

    /// The localhost address. (127.0.0.1)
    pub fn localhost() -> (r: Self)
        ensures
            r@ == seq![127u8, 0u8, 0u8, 1u8],
    {
        Self::new([127, 0, 0, 1])
    }

    /// The broadcast address. (255.255.255.255)
    pub fn broadcast() -> (r: Self)
        ensures
            r@ == seq![255u8, 255u8, 255u8, 255u8],
    {
        Self::new([255, 255, 255, 255])
    }

    /// Creates a new IPv4 address. [a, b, c, d]
    pub fn new(address: [u8; 4]) -> (r: Self)
        ensures
            r@ == address@,
    {
        Self { address }
    }

    /// Gets the address. [a, b, c, d]
    pub fn address(&self) -> (r: [u8; 4])
        ensures
            r@ == self@,
    {
        self.address
    }

    /// Gets the bytes. (a, b, c, d)
    pub fn bytes(&self) -> (r: (u8, u8, u8, u8))
        ensures
            self@ == seq![r.0, r.1, r.2, r.3],
    {
        let r = (self.address[0], self.address[1], self.address[2], self.address[3]);
        assert(self@ =~= seq![r.0, r.1, r.2, r.3]);
        r
    }
}

impl From<[u8; 4]> for IPv4Address {
    fn from(address: [u8; 4]) -> (r: Self)
        ensures
            r@ == address@,
    {
        Self { address }
    }
}

impl vstd::std_specs::convert::FromSpecImpl<[u8; 4]> for IPv4Address {
    open spec fn obeys_from_spec() -> bool {
        true
    }

    closed spec fn from_spec(v: [u8; 4]) -> Self {
        IPv4Address { address: v }
    }
}

impl From<IPv4Address> for [u8; 4] {
    fn from(ip: IPv4Address) -> (r: Self)
        ensures
            r@ == ip@,
    {
        ip.address
    }
}

impl vstd::std_specs::convert::FromSpecImpl<IPv4Address> for [u8; 4] {
    open spec fn obeys_from_spec() -> bool {
        true
    }

    closed spec fn from_spec(v: IPv4Address) -> Self {
        v.address
    }
}

impl From<(u8, u8, u8, u8)> for IPv4Address {
    fn from(tuple: (u8, u8, u8, u8)) -> (r: Self)
        ensures
            r@ == seq![tuple.0, tuple.1, tuple.2, tuple.3],
    {
        let r = Self::new([tuple.0, tuple.1, tuple.2, tuple.3]);
        assert(r@ =~= seq![tuple.0, tuple.1, tuple.2, tuple.3]);
        r
    }
}

impl vstd::std_specs::convert::FromSpecImpl<(u8, u8, u8, u8)> for IPv4Address {
    /// The outcome is stated by the `ensures` of `from`, over views.
    open spec fn obeys_from_spec() -> bool {
        false
    }

    open spec fn from_spec(v: (u8, u8, u8, u8)) -> Self {
        arbitrary()
    }
}

impl From<IPv4Address> for (u8, u8, u8, u8) {
    fn from(ip: IPv4Address) -> (r: Self)
        ensures
            ip@ == seq![r.0, r.1, r.2, r.3],
    {
        ip.bytes()
    }
}

impl vstd::std_specs::convert::FromSpecImpl<IPv4Address> for (u8, u8, u8, u8) {
    open spec fn obeys_from_spec() -> bool {
        true
    }

    closed spec fn from_spec(v: IPv4Address) -> Self {
        (v.address[0], v.address[1], v.address[2], v.address[3])
    }
}

impl From<u32> for IPv4Address {
    /// The address whose four bytes write the number, the most significant
    /// byte first.
    fn from(value: u32) -> (r: Self)
        ensures
            be_value(r@) == value,
    {
        let r = Self::new(
            [
                (value / 0x100_0000) as u8,
                ((value / 0x1_0000) % 0x100) as u8,
                ((value / 0x100) % 0x100) as u8,
                (value % 0x100) as u8,
            ],
        );
        proof {
            lemma_be_value_4(r@);
        }
        r
    }
}

impl vstd::std_specs::convert::FromSpecImpl<u32> for IPv4Address {
    /// The outcome is stated by the `ensures` of `from`, over views.
    open spec fn obeys_from_spec() -> bool {
        false
    }

    open spec fn from_spec(v: u32) -> Self {
        arbitrary()
    }
}

impl From<IPv4Address> for u32 {
    /// The number that the four bytes of the address write, the most
    /// significant byte first.
    fn from(ip: IPv4Address) -> (r: Self)
        ensures
            r == be_value(ip@),
    {
        let (a, b, c, d) = ip.bytes();
        proof {
            lemma_be_value_4(ip@);
        }
        (((a as u32) * 256 + (b as u32)) * 256 + (c as u32)) * 256 + (d as u32)
    }
}

impl vstd::std_specs::convert::FromSpecImpl<IPv4Address> for u32 {
    /// The outcome is stated by the `ensures` of `from`, over views.
    open spec fn obeys_from_spec() -> bool {
        false
    }

    open spec fn from_spec(v: IPv4Address) -> Self {
        arbitrary()
    }
}

impl Default for IPv4Address {
    /// The unspecified address.
    fn default() -> (r: Self)
        ensures
            r@ == seq![0u8, 0u8, 0u8, 0u8],
    {
        Self::unspecified()
    }
}

} // verus!
