//! The machine's network interfaces, and the addresses under which the feed
//! is announced: the IPv4 addresses of the interfaces that are not loopback.

use vstd::prelude::*;

verus! {

/// An IPv4 address, as its four octets in network order.
#[derive(Clone, Copy, Debug, PartialEq, Eq, Hash)]
pub struct Ipv4Address {
    pub octets: [u8; 4],
}

impl Ipv4Address {
    /// Whether the address lies in the loopback block `127.0.0.0/8`.
    pub open spec fn spec_is_loopback(self) -> bool {
        self.octets[0] == 127
    }

    /// Whether the address lies in the loopback block `127.0.0.0/8`.
    #[verifier::when_used_as_spec(spec_is_loopback)]
    pub fn is_loopback(self) -> (r: bool)
        ensures
            r == self.spec_is_loopback(),
    {
        self.octets[0] == 127
    }
}

/// The address of an interface, by family. Of an IPv6 interface nothing but
/// its family is kept.
#[derive(Clone, Copy, Debug, PartialEq, Eq, Hash)]
pub enum InterfaceAddress {
    V4(Ipv4Address),
    V6,
}

/// One entry of the machine's interface table.
#[derive(Clone, Copy, Debug, PartialEq, Eq, Hash)]
pub struct HostInterface {
    /// Whether the interface is flagged as loopback.
    pub loopback: bool,
    pub address: InterfaceAddress,
}

impl HostInterface {
    /// The address under which the interface is announced: its IPv4 address,
    /// unless it is a loopback interface.
    pub open spec fn announced(self) -> Option<Ipv4Address> {
        if self.loopback {
            None
        } else {
            match self.address {
                InterfaceAddress::V4(address) => Some(address),
                InterfaceAddress::V6 => None,
            }
        }
    }

    /// Whether the loopback flag agrees with the address, as it does in every
    /// entry that the operating system's table yields.
    pub open spec fn flag_matches_address(self) -> bool {
        self.address matches InterfaceAddress::V4(address) ==> self.loopback
            == address.is_loopback()
    }

    pub fn announced_address(&self) -> (r: Option<Ipv4Address>)
        ensures
            r == self.announced(),
    {
        if self.loopback {
            None
        } else {
            match self.address {
                InterfaceAddress::V4(address) => Some(address),
                InterfaceAddress::V6 => None,
            }
        }
    }
}

/// The announced addresses of a whole interface table, in the table's order.
pub open spec fn announced_addresses(table: Seq<HostInterface>) -> Seq<Ipv4Address> {
    table.filter_map(|entry: HostInterface| entry.announced())
}

/// What is announced for the outcome of a query of the interface table. A
/// failed query announces no address.
pub open spec fn addresses_for_query(query: Option<Seq<HostInterface>>) -> Seq<Ipv4Address> {
    match query {
        Some(table) => announced_addresses(table),
        None => Seq::empty(),
    }
}

/// Only what should be announced is announced: every announced address is the
/// IPv4 address of an entry of the table that is not flagged as loopback.
pub proof fn law_announced_is_ipv4_and_not_loopback(table: Seq<HostInterface>, k: int) -> (i: int)
    requires
        0 <= k < announced_addresses(table).len(),
    ensures
        0 <= i < table.len(),
        !table[i].loopback,
        table[i].address == InterfaceAddress::V4(announced_addresses(table)[k]),
{
    let pick = |entry: HostInterface| entry.announced();
    let address = announced_addresses(table)[k];
    assert(table.filter_map(pick).contains(address));
    table.lemma_filter_map_contains(pick, address);
    choose|i: int| 0 <= i < table.len() && #[trigger] pick(table[i]) == Some(address)
}

/// Nothing that should be announced is left out: the IPv4 address of every
/// entry that is not flagged as loopback is announced.
pub proof fn law_every_ipv4_interface_is_announced(table: Seq<HostInterface>, i: int) -> (k: int)
    requires
        0 <= i < table.len(),
        !table[i].loopback,
        table[i].address is V4,
    ensures
        0 <= k < announced_addresses(table).len(),
        InterfaceAddress::V4(announced_addresses(table)[k]) == table[i].address,
    decreases table.len(),
{
    let earlier = announced_addresses(table.drop_last());
    if i == table.len() - 1 {
        assert(announced_addresses(table) == earlier + seq![table[i].address->V4_0]);
        earlier.len() as int
    } else {
        let k = law_every_ipv4_interface_is_announced(table.drop_last(), i);
        assert(announced_addresses(table)[k] == earlier[k]);
        k
    }
}

/// Picks from an interface table the addresses to announce.
pub fn select_ipv4(table: &Vec<HostInterface>) -> (r: Vec<Ipv4Address>)
    ensures
        r@ == announced_addresses(table@),
{
    let mut selected: Vec<Ipv4Address> = Vec::new();
    let mut i: usize = 0;
    while i < table.len()
        invariant
            i <= table.len(),
            selected@ == announced_addresses(table@.take(i as int)),
        decreases table.len() - i,
    {
        proof {
            table@.lemma_filter_map_take_succ(|entry: HostInterface| entry.announced(), i as int);
        }
        match table[i].announced_address() {
            Some(address) => selected.push(address),
            None => {},
        }
        i += 1;
    }
    assert(table@.take(table.len() as int) == table@);
    selected
}

/// What is announced for the outcome of a query of the interface table.
pub fn addresses_for(query: &Option<Vec<HostInterface>>) -> (r: Vec<Ipv4Address>)
    ensures
        r@ == addresses_for_query(table_of(*query)),
{
    match query {
        Some(table) => select_ipv4(table),
        None => Vec::new(),
    }
}

/// The outcome of a query as a mathematical value.
pub open spec fn table_of(query: Option<Vec<HostInterface>>) -> Option<Seq<HostInterface>> {
    match query {
        Some(table) => Some(table@),
        None => None,
    }
}

#[verifier::external_type_specification]
#[verifier::external_body]
pub struct ExInterface(if_addrs::Interface);

/// Calls `if_addrs::get_if_addrs`, which asks the operating system for its
/// interface table, and drops the cause of a failure. The table differs from
/// machine to machine and from call to call: nothing is claimed of it.
#[verifier::external_body]
fn query_interface_table() -> (r: Option<Vec<if_addrs::Interface>>) {
    if_addrs::get_if_addrs().ok()
}

/// Reads one entry of the table: the flag from `if_addrs::Interface::is_loopback`,
/// the address from the entry's public field `addr`.
///
/// `is_loopback` hands the question on to the address, and for an IPv4 address
/// that is `Ipv4Addr::is_loopback`, documented as membership in `127.0.0.0/8`.
/// So the flag of an IPv4 entry is claimed to agree with its address.
#[verifier::external_body]
fn read_interface(found: &if_addrs::Interface) -> (r: HostInterface)
    ensures
        r.flag_matches_address(),
{
    HostInterface {
        loopback: found.is_loopback(),
        address: match &found.addr {
            if_addrs::IfAddr::V4(v4) => InterfaceAddress::V4(Ipv4Address { octets: v4.ip.octets() }),
            if_addrs::IfAddr::V6(_) => InterfaceAddress::V6,
        },
    }
}

/// The machine's interface table as it is now, or `None` if the operating
/// system does not yield it.
pub fn host_interfaces() -> (r: Option<Vec<HostInterface>>)
    ensures
        r matches Some(table) ==> forall|i: int|
            0 <= i < table.len() ==> (#[trigger] table[i]).flag_matches_address(),
{
    let found = query_interface_table();
    read_query(&found)
}

/// Reads what a query of the operating system's interface table yielded. A
/// failed query stays a failed query; of a table every entry is read, in the
/// table's order.
pub fn read_query(found: &Option<Vec<if_addrs::Interface>>) -> (r: Option<Vec<HostInterface>>)
    ensures
        r is Some <==> found is Some,
        r matches Some(table) ==> table.len() == found->0.len(),
        r matches Some(table) ==> forall|i: int|
            0 <= i < table.len() ==> (#[trigger] table[i]).flag_matches_address(),
{
    match found {
        None => None,
        Some(entries) => {
            let mut table: Vec<HostInterface> = Vec::new();
            let mut i: usize = 0;
            while i < entries.len()
                invariant
                    i <= entries.len(),
                    table.len() == i,
                    forall|k: int|
                        0 <= k < table.len() ==> (#[trigger] table[k]).flag_matches_address(),
                decreases entries.len() - i,
            {
                table.push(read_interface(&entries[i]));
                i += 1;
            }
            Some(table)
        },
    }
}

/// No loopback address is announced, whether the query failed or it yielded
/// a table whose flags agree with its addresses.
pub proof fn law_no_loopback_address_is_announced(query: Option<Seq<HostInterface>>, k: int)
    requires
        query matches Some(table) ==> forall|i: int|
            0 <= i < table.len() ==> (#[trigger] table[i]).flag_matches_address(),
        0 <= k < addresses_for_query(query).len(),
    ensures
        !addresses_for_query(query)[k].is_loopback(),
{
    let table = query->0;
    let i = law_announced_is_ipv4_and_not_loopback(table, k);
    assert(table[i].flag_matches_address());
}

/// The addresses under which this machine announces the feed: the IPv4
/// addresses of its interfaces that are not loopback, in the order of the
/// interface table. If the table cannot be had there are none.
pub fn my_ipv4_interfaces() -> (r: Vec<Ipv4Address>)
    ensures
        forall|k: int| 0 <= k < r.len() ==> !(#[trigger] r[k]).is_loopback(),
{
    let query = host_interfaces();
    let r = addresses_for(&query);
    proof {
        assert forall|k: int| 0 <= k < r.len() implies !(#[trigger] r[k]).is_loopback() by {
            law_no_loopback_address_is_announced(table_of(query), k);
        }
    }
    r
}

} // verus!
