//! Link-layer and network-layer addresses as plain octets.

use vstd::prelude::*;

verus! {

/// A four-octet IPv4 address, most significant octet first.
#[derive(Debug, Clone, Copy, Eq)]
pub struct Ipv4Address(pub [u8; 4]);

/// A six-octet Ethernet (MAC) address.
#[derive(Debug, Clone, Copy, Eq)]
pub struct EthernetAddress(pub [u8; 6]);

impl Ipv4Address {
    /// The address `a0.a1.a2.a3`.
    pub open spec fn spec_new(a0: u8, a1: u8, a2: u8, a3: u8) -> Ipv4Address {
        Ipv4Address([a0, a1, a2, a3])
    }

    /// The four octets, in transmission order.
    pub open spec fn view(&self) -> Seq<u8> {
        self.0@
    }

    /// Build an address from its four octets.
    #[verifier::when_used_as_spec(spec_new)]
    pub fn new(a0: u8, a1: u8, a2: u8, a3: u8) -> (r: Ipv4Address)
        ensures
            r == Ipv4Address::spec_new(a0, a1, a2, a3),
            r@ == seq![a0, a1, a2, a3],
    {
        let r = Ipv4Address([a0, a1, a2, a3]);
        assert(r@ =~= seq![a0, a1, a2, a3]);
        r
    }

    /// The four octets as a slice.
    pub fn as_bytes(&self) -> (r: &[u8])
        ensures
            r@ == self@,
    {
        &self.0
    }
}

impl EthernetAddress {
    /// The six octets, in transmission order.
    pub open spec fn view(&self) -> Seq<u8> {
        self.0@
    }

    /// The six octets as a slice.
    pub fn as_bytes(&self) -> (r: &[u8])
        ensures
            r@ == self@,
    {
        &self.0
    }
}

impl PartialEq for Ipv4Address {
    fn eq(&self, other: &Self) -> (r: bool) {
        proof {
            vstd::array::axiom_array_ext_equal(self.0, other.0);
        }
        let equal = self.0[0] == other.0[0] && self.0[1] == other.0[1] && self.0[2] == other.0[2]
            && self.0[3] == other.0[3];
        assert(equal <==> self.0 =~= other.0);
        equal
    }
}

impl vstd::std_specs::cmp::PartialEqSpecImpl for Ipv4Address {
    open spec fn obeys_eq_spec() -> bool {
        true
    }

    open spec fn eq_spec(&self, other: &Self) -> bool {
        *self == *other
    }
}

impl PartialEq for EthernetAddress {
    fn eq(&self, other: &Self) -> (r: bool) {
        proof {
            vstd::array::axiom_array_ext_equal(self.0, other.0);
        }
        let equal = self.0[0] == other.0[0] && self.0[1] == other.0[1] && self.0[2] == other.0[2]
            && self.0[3] == other.0[3] && self.0[4] == other.0[4] && self.0[5] == other.0[5];
        assert(equal <==> self.0 =~= other.0);
        equal
    }
}

impl vstd::std_specs::cmp::PartialEqSpecImpl for EthernetAddress {
    open spec fn obeys_eq_spec() -> bool {
        true
    }

    open spec fn eq_spec(&self, other: &Self) -> bool {
        *self == *other
    }
}

} // verus!
