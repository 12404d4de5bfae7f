//! From the service descriptor to what the discovery daemon registers.

use crate::descriptor::feed_descriptor;
use crate::descriptor::keys_announceable;
use crate::descriptor::DescriptorView;
use crate::descriptor::ServiceDescriptor;
use crate::descriptor::TxtEntry;
use crate::interfaces::addresses_for;
use crate::interfaces::addresses_for_query;
use crate::interfaces::host_interfaces;
use crate::interfaces::law_no_loopback_address_is_announced;
use crate::interfaces::table_of;
use crate::interfaces::HostInterface;
use crate::interfaces::Ipv4Address;
use crate::startup::SetupError;
use vstd::prelude::*;

verus! {

#[verifier::external_type_specification]
#[verifier::external_body]
pub struct ExServiceInfo(mdns_sd::ServiceInfo);

#[verifier::external_type_specification]
#[verifier::external_body]
pub struct ExDiscoveryError(mdns_sd::Error);

/// Whether `mdns_sd::ServiceInfo::new` accepts these parts of a descriptor,
/// the addresses given by their octets and the metadata by its pairs.
pub uninterp spec fn service_info_accepted(
    service_type: Seq<char>,
    instance_name: Seq<char>,
    hostname: Seq<char>,
    addresses: Seq<Seq<u8>>,
    port: u16,
    properties: Seq<(Seq<char>, Seq<char>)>,
) -> bool;

/// Whether `mdns_sd::ServiceInfo::new` accepts a descriptor.
pub open spec fn accepted(descriptor: DescriptorView) -> bool {
    service_info_accepted(
        descriptor.service_type,
        descriptor.instance_name,
        descriptor.hostname,
        descriptor.addresses.map_values(|address: Ipv4Address| address.octets@),
        descriptor.port,
        descriptor.properties,
    )
}

/// Calls `mdns_sd::ServiceInfo::new` with the addresses in dotted notation and
/// the metadata as a slice of pairs, in their order.
///
/// Whether the call succeeds depends on its arguments alone. It fails only if
/// an address cannot be read, which the notation written here rules out, or
/// if a key that it keeps of the metadata holds a character outside ASCII or
/// a `=`. So it is claimed to succeed when every key is free of both. Nothing
/// is claimed of what the result holds.
#[verifier::external_body]
fn new_service_info(
    service_type: &str,
    instance_name: &str,
    hostname: &str,
    addresses: &Vec<Ipv4Address>,
    port: u16,
    properties: &Vec<TxtEntry>,
) -> (r: Result<mdns_sd::ServiceInfo, mdns_sd::Error>)
    ensures
        r is Ok <==> service_info_accepted(
            service_type@,
            instance_name@,
            hostname@,
            addresses@.map_values(|address: Ipv4Address| address.octets@),
            port,
            properties@.map_values(|entry: TxtEntry| entry@),
        ),
        keys_announceable(properties@.map_values(|entry: TxtEntry| entry@)) ==> r is Ok,
{
    let dotted: Vec<String> = addresses.iter().map(|a| {
        format!("{}.{}.{}.{}", a.octets[0], a.octets[1], a.octets[2], a.octets[3])
    }).collect();
    let pairs: Vec<(&str, &str)> = properties.iter().map(|entry| {
        (entry.key.as_str(), entry.value.as_str())
    }).collect();
    mdns_sd::ServiceInfo::new(service_type, instance_name, hostname, &dotted[..], port, &pairs[..])
}

/// Builds what the discovery daemon registers for a descriptor. A descriptor
/// that the daemon's library does not accept cannot be registered; one whose
/// keys may all stand in the metadata is accepted.
pub fn service_info(descriptor: &ServiceDescriptor) -> (r: Result<mdns_sd::ServiceInfo, SetupError>)
    ensures
        r is Ok <==> accepted(descriptor@),
        descriptor@.keys_announceable() ==> r is Ok,
        r matches Err(error) ==> error == SetupError::Registration,
{
    let built = new_service_info(
        descriptor.service_type.as_str(),
        descriptor.instance_name.as_str(),
        descriptor.hostname.as_str(),
        &descriptor.addresses,
        descriptor.port,
        &descriptor.properties,
    );
    match built {
        Ok(info) => Ok(info),
        Err(_) => Err(SetupError::Registration),
    }
}

/// The descriptor of the feed that the machine named `machine` serves on
/// `port`, for the outcome of a query of its interface table.
pub fn describe_feed_for(machine: &str, port: u16, query: &Option<Vec<HostInterface>>) -> (r:
    ServiceDescriptor)
    ensures
        r@ == feed_descriptor(machine@, port, addresses_for_query(table_of(*query))),
        r@.keys_announceable(),
{
    ServiceDescriptor::local_feed(machine, port, addresses_for(query))
}

/// The descriptor of the feed that this machine, named `machine`, serves on
/// `port`. The addresses are those that the machine has now; whatever they
/// are, none of them is a loopback address.
pub fn describe_feed(machine: &str, port: u16) -> (r: ServiceDescriptor)
    ensures
        r@ == feed_descriptor(machine@, port, r@.addresses),
        r@.keys_announceable(),
        forall|k: int| 0 <= k < r@.addresses.len() ==> !(#[trigger] r@.addresses[k]).is_loopback(),
{
    let query = host_interfaces();
    let r = describe_feed_for(machine, port, &query);
    proof {
        assert forall|k: int| 0 <= k < r@.addresses.len() implies !(
        #[trigger] r@.addresses[k]).is_loopback() by {
            law_no_loopback_address_is_announced(table_of(query), k);
        }
    }
    r
}

} // verus!
