//! The decisions of the WiFi-to-network-stack adapter: which hardware
//! address the interface uses and what the link can carry.
use vstd::prelude::*;

verus! {

/// The hardware address a network driver reports.
#[derive(Clone, Copy, Debug)]
pub enum HardwareAddress {
    /// A six-octet Ethernet (and WiFi) address.
    Ethernet([u8; 6]),
    /// An eight-octet IEEE 802.15.4 address.
    Ieee802154([u8; 8]),
    /// An IP-native device without a hardware address.
    Ip,
}

/// The kind of frames a link carries.
#[derive(Clone, Copy, Debug, PartialEq, Eq, Structural)]
pub enum LinkMedium {
    /// Ethernet frames.
    Ethernet,
    /// Bare IP packets.
    Ip,
    /// IEEE 802.15.4 frames.
    Ieee802154,
}

/// What the link can carry, as the network stack asks for it.
#[derive(Clone, Copy, Debug, PartialEq, Eq, Structural)]
pub struct LinkCapabilities {
    /// The kind of frames.
    pub medium: LinkMedium,
    /// The largest frame, Ethernet header included.
    pub max_transmission_unit: usize,
    /// How many frames of the largest size fit in one burst, if limited.
    pub max_burst_size: Option<usize>,
}

/// The Ethernet address of the interface: the driver's address when it is an
/// Ethernet one, all zeros otherwise.
pub fn mac_address(addr: HardwareAddress) -> (mac: [u8; 6])
    ensures
        mac@ == (match addr {
            HardwareAddress::Ethernet(a) => a@,
            _ => seq![0u8, 0u8, 0u8, 0u8, 0u8, 0u8],
        }),
{
    match addr {
        HardwareAddress::Ethernet(a) => a,
        _ => {
            let zeros = [0u8; 6];
            assert(zeros@ =~= seq![0u8, 0u8, 0u8, 0u8, 0u8, 0u8]);
            zeros
        },
    }
}

/// The capabilities of the WiFi link: Ethernet frames of at most 1514 bytes,
/// one at a time.
pub fn wifi_link_capabilities() -> (caps: LinkCapabilities)
    ensures
        caps == (LinkCapabilities {
            medium: LinkMedium::Ethernet,
            max_transmission_unit: 1514,
            max_burst_size: Some(1),
        }),
{
    LinkCapabilities {
        medium: LinkMedium::Ethernet,
        max_transmission_unit: 1514,
        max_burst_size: Some(1),
    }
}

} // verus!
