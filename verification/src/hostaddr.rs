//! Choosing the address that a session advertises to its peer.
use crate::error::SessionError;
use vstd::prelude::*;

verus! {

/// An IPv4 address, by its four octets.
#[derive(Clone, Copy, Debug, PartialEq, Eq, Structural)]
pub struct Ipv4Address {
    pub a: u8,
    pub b: u8,
    pub c: u8,
    pub d: u8,
}

/// One address of a network interface of the host.
#[derive(Clone, Copy, Debug, PartialEq, Eq, Structural)]
pub enum InterfaceAddress {
    /// An IPv4 address.
    V4(Ipv4Address),
    /// An IPv6 address. Sessions advertise IPv4 only.
    V6,
    /// No address, or one of a family the host does not name.
    Other,
}

impl Ipv4Address {
    /// An address of the loopback network, 127.0.0.0/8.
    pub open spec fn is_loopback(self) -> bool {
        self.a == 127
    }

    /// An address of the link-local network, 169.254.0.0/16.
    pub open spec fn is_link_local(self) -> bool {
        self.a == 169 && self.b == 254
    }

    /// The broadcast address, 255.255.255.255.
    pub open spec fn is_broadcast(self) -> bool {
        self.a == 255 && self.b == 255 && self.c == 255 && self.d == 255
    }

    /// A peer can reach the host at this address: it is neither loopback nor
    /// link-local nor broadcast.
    pub open spec fn is_reachable(self) -> bool {
        !self.is_loopback() && !self.is_link_local() && !self.is_broadcast()
    }

    /// Whether a peer can reach the host at this address.
    pub fn reachable(&self) -> (r: bool)
        ensures
            r == self.is_reachable(),
    {
        let loopback = self.a == 127;
        let link_local = self.a == 169 && self.b == 254;
        let broadcast = self.a == 255 && self.b == 255 && self.c == 255 && self.d == 255;
        !loopback && !link_local && !broadcast
    }
}

/// An interface address that a session can advertise.
pub open spec fn usable(address: InterfaceAddress) -> bool {
    address matches InterfaceAddress::V4(ip) && ip.is_reachable()
}

/// The first usable address of `addresses`, if there is one.
pub open spec fn first_usable(addresses: Seq<InterfaceAddress>) -> Option<Ipv4Address>
    decreases addresses.len(),
{
    if addresses.len() == 0 {
        None
    } else if let InterfaceAddress::V4(ip) = addresses.first() {
        if ip.is_reachable() {
            Some(ip)
        } else {
            first_usable(addresses.drop_first())
        }
    } else {
        first_usable(addresses.drop_first())
    }
}

/// `first_usable` finds the usable address that no usable address precedes,
/// and finds none only where none is usable.
pub proof fn lemma_first_usable(addresses: Seq<InterfaceAddress>)
    ensures
        match first_usable(addresses) {
            Some(ip) => exists|i: int|
                0 <= i < addresses.len() && #[trigger] addresses[i] == InterfaceAddress::V4(ip)
                    && ip.is_reachable() && forall|j: int| 0 <= j < i ==> !usable(addresses[j]),
            None => forall|i: int| 0 <= i < addresses.len() ==> !usable(#[trigger] addresses[i]),
        },
    decreases addresses.len(),
{
    if addresses.len() > 0 {
        let rest = addresses.drop_first();
        lemma_first_usable(rest);
        assert forall|i: int| 0 <= i < rest.len() implies rest[i] == addresses[i + 1] by {}
        if usable(addresses.first()) {
            assert(addresses[0] == addresses.first());
        } else {
            match first_usable(rest) {
                Some(ip) => {
                    let i = choose|i: int|
                        0 <= i < rest.len() && #[trigger] rest[i] == InterfaceAddress::V4(ip)
                            && ip.is_reachable() && forall|j: int|
                            0 <= j < i ==> !usable(rest[j]);
                    assert(addresses[i + 1] == InterfaceAddress::V4(ip));
                    assert forall|j: int| 0 <= j < i + 1 implies !usable(addresses[j]) by {
                        if j > 0 {
                            assert(addresses[j] == rest[j - 1]);
                        }
                    }
                },
                None => {
                    assert forall|i: int| 0 <= i < addresses.len() implies !usable(
                        #[trigger] addresses[i],
                    ) by {
                        if i > 0 {
                            assert(addresses[i] == rest[i - 1]);
                        }
                    }
                },
            }
        }
    }
}

/// Picks the address to advertise: the first address of the host, in the
/// order the host lists them, that a peer can reach. A host without one is
/// misconfigured.
pub fn select_host_address(addresses: &Vec<InterfaceAddress>) -> (r: Result<
    Ipv4Address,
    SessionError,
>)
    ensures
        match r {
            Ok(ip) => first_usable(addresses@) == Some(ip),
            Err(e) => first_usable(addresses@) is None && e == SessionError::Configuration,
        },
{
    let mut i: usize = 0;
    assert(addresses@.skip(0) =~= addresses@);
    while i < addresses.len()
        invariant
            i <= addresses@.len(),
            first_usable(addresses@) == first_usable(addresses@.skip(i as int)),
        decreases addresses@.len() - i,
    {
        let ghost tail = addresses@.skip(i as int);
        assert(tail.first() == addresses@[i as int]);
        assert(tail.drop_first() =~= addresses@.skip(i as int + 1));
        if let InterfaceAddress::V4(ip) = addresses[i] {
            if ip.reachable() {
                return Ok(ip);
            }
        }
        i += 1;
    }
    assert(addresses@.skip(i as int).len() == 0);
    Err(SessionError::Configuration)
}

} // verus!
