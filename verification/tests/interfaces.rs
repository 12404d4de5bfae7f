use local_feed::interfaces::addresses_for;
use local_feed::interfaces::host_interfaces;
use local_feed::interfaces::my_ipv4_interfaces;
use local_feed::interfaces::read_query;
use local_feed::interfaces::select_ipv4;
use local_feed::interfaces::HostInterface;
use local_feed::interfaces::InterfaceAddress;
use local_feed::interfaces::Ipv4Address;

fn v4(loopback: bool, octets: [u8; 4]) -> HostInterface {
    HostInterface { loopback, address: InterfaceAddress::V4(Ipv4Address { octets }) }
}

fn v6(loopback: bool) -> HostInterface {
    HostInterface { loopback, address: InterfaceAddress::V6 }
}

#[test]
fn empty_table_announces_nothing() {
    assert_eq!(select_ipv4(&vec![]), vec![]);
}

#[test]
fn loopback_interface_is_left_out() {
    let table = vec![v4(true, [127, 0, 0, 1])];
    assert_eq!(select_ipv4(&table), vec![]);
}

#[test]
fn ipv6_interface_is_left_out() {
    let table = vec![v6(false), v6(true)];
    assert_eq!(select_ipv4(&table), vec![]);
}

#[test]
fn ipv4_interface_is_announced() {
    let table = vec![v4(false, [192, 168, 1, 7])];
    assert_eq!(select_ipv4(&table), vec![Ipv4Address { octets: [192, 168, 1, 7] }]);
}

#[test]
fn table_order_is_kept() {
    let table = vec![
        v4(true, [127, 0, 0, 1]),
        v4(false, [10, 0, 0, 5]),
        v6(true),
        v6(false),
        v4(false, [192, 168, 1, 7]),
        v4(false, [172, 16, 0, 1]),
    ];
    assert_eq!(
        select_ipv4(&table),
        vec![
            Ipv4Address { octets: [10, 0, 0, 5] },
            Ipv4Address { octets: [192, 168, 1, 7] },
            Ipv4Address { octets: [172, 16, 0, 1] },
        ]
    );
}

#[test]
fn an_address_on_two_interfaces_is_announced_twice() {
    let table = vec![v4(false, [10, 0, 0, 5]), v4(false, [10, 0, 0, 5])];
    assert_eq!(select_ipv4(&table).len(), 2);
}

#[test]
fn the_flag_decides_not_the_address() {
    let table = vec![v4(true, [10, 0, 0, 5]), v4(false, [127, 0, 0, 1])];
    assert_eq!(select_ipv4(&table), vec![Ipv4Address { octets: [127, 0, 0, 1] }]);
}

#[test]
fn loopback_block_is_the_first_octet() {
    assert!(Ipv4Address { octets: [127, 0, 0, 1] }.is_loopback());
    assert!(Ipv4Address { octets: [127, 255, 255, 255] }.is_loopback());
    assert!(!Ipv4Address { octets: [126, 255, 255, 255] }.is_loopback());
    assert!(!Ipv4Address { octets: [128, 0, 0, 1] }.is_loopback());
    assert!(!Ipv4Address { octets: [10, 127, 127, 127] }.is_loopback());
}

#[test]
fn failed_query_announces_nothing() {
    assert_eq!(addresses_for(&None), vec![]);
}

#[test]
fn successful_query_announces_the_selection() {
    let table = vec![v4(true, [127, 0, 0, 1]), v4(false, [10, 0, 0, 5]), v6(false)];
    assert_eq!(addresses_for(&Some(table.clone())), select_ipv4(&table));
    assert_eq!(addresses_for(&Some(table)), vec![Ipv4Address { octets: [10, 0, 0, 5] }]);
}

fn found_v4(ip: &str) -> if_addrs::Interface {
    if_addrs::Interface {
        name: "eth0".to_string(),
        addr: if_addrs::IfAddr::V4(if_addrs::Ifv4Addr {
            ip: ip.parse().unwrap(),
            netmask: "255.255.255.0".parse().unwrap(),
            prefixlen: 24,
            broadcast: None,
        }),
        index: Some(2),
        oper_status: if_addrs::IfOperStatus::Up,
        is_p2p: false,
    }
}

fn found_v6(ip: &str) -> if_addrs::Interface {
    if_addrs::Interface {
        name: "eth0".to_string(),
        addr: if_addrs::IfAddr::V6(if_addrs::Ifv6Addr {
            ip: ip.parse().unwrap(),
            netmask: "ffff:ffff:ffff:ffff::".parse().unwrap(),
            prefixlen: 64,
            broadcast: None,
        }),
        index: Some(2),
        oper_status: if_addrs::IfOperStatus::Up,
        is_p2p: false,
    }
}

#[test]
fn failed_query_is_read_as_failed() {
    assert_eq!(read_query(&None), None);
    assert_eq!(addresses_for(&read_query(&None)), vec![]);
}

#[test]
fn empty_table_is_read_as_empty_table() {
    assert_eq!(read_query(&Some(vec![])), Some(vec![]));
}

#[test]
fn every_entry_found_is_read_in_order() {
    let found = vec![
        found_v4("127.0.0.1"),
        found_v4("192.168.1.7"),
        found_v6("::1"),
        found_v6("fe80::1"),
        found_v4("10.0.0.5"),
        found_v4("127.8.9.10"),
    ];
    assert_eq!(
        read_query(&Some(found)),
        Some(vec![
            v4(true, [127, 0, 0, 1]),
            v4(false, [192, 168, 1, 7]),
            v6(true),
            v6(false),
            v4(false, [10, 0, 0, 5]),
            v4(true, [127, 8, 9, 10]),
        ])
    );
}

#[test]
fn what_is_read_is_what_is_announced() {
    let found = vec![
        found_v4("127.0.0.1"),
        found_v4("192.168.1.7"),
        found_v6("fe80::1"),
        found_v4("10.0.0.5"),
    ];
    assert_eq!(
        addresses_for(&read_query(&Some(found))),
        vec![Ipv4Address { octets: [192, 168, 1, 7] }, Ipv4Address { octets: [10, 0, 0, 5] }]
    );
}

#[test]
fn host_table_flags_agree_with_addresses() {
    if let Some(table) = host_interfaces() {
        for entry in table {
            if let InterfaceAddress::V4(address) = entry.address {
                assert_eq!(entry.loopback, address.is_loopback());
            }
        }
    }
}

#[test]
fn host_never_announces_loopback() {
    for address in my_ipv4_interfaces() {
        assert!(!address.is_loopback());
    }
}

#[test]
fn host_announcement_is_the_selection_of_its_table() {
    if let Some(table) = host_interfaces() {
        let selected = select_ipv4(&table);
        for address in &selected {
            assert!(table.iter().any(|entry| !entry.loopback
                && entry.address == InterfaceAddress::V4(*address)));
        }
        let expected = table
            .iter()
            .filter(|entry| !entry.loopback && matches!(entry.address, InterfaceAddress::V4(_)))
            .count();
        assert_eq!(selected.len(), expected);
    }
}
