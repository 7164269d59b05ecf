use laundry_monitor::wifi_adapter::{
    mac_address, wifi_link_capabilities, HardwareAddress, LinkCapabilities, LinkMedium,
};

#[test]
fn mac_address_of_ethernet_driver() {
    let mac = [0x24, 0x6f, 0x28, 0x01, 0x02, 0x03];
    assert_eq!(mac_address(HardwareAddress::Ethernet(mac)), mac);
}

#[test]
fn mac_address_is_zero_for_other_drivers() {
    assert_eq!(mac_address(HardwareAddress::Ip), [0u8; 6]);
    assert_eq!(mac_address(HardwareAddress::Ieee802154([1; 8])), [0u8; 6]);
}

#[test]
fn wifi_link_carries_one_ethernet_frame_at_a_time() {
    assert_eq!(
        wifi_link_capabilities(),
        LinkCapabilities {
            medium: LinkMedium::Ethernet,
            max_transmission_unit: 1514,
            max_burst_size: Some(1),
        }
    );
}
