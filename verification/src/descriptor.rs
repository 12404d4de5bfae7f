//! The service descriptor: what the feed announces about itself on the local
//! network. Discovery clients match on these strings, so every one of them is
//! fixed to the letter.

use crate::interfaces::Ipv4Address;
use vstd::prelude::*;
use vstd::utf8::is_ascii_chars;

verus! {

/// The service type under which feeds are looked up, with its domain.
pub const SERVICE_TYPE: &'static str = "_tezi._tcp.local.";

/// The instance name of this feed.
pub const INSTANCE_NAME: &'static str = "PentaSono Toradex local feed";

/// What is appended to the machine's name to give the announced host name.
pub const LOCAL_DOMAIN_SUFFIX: &'static str = ".local";

/// The name shown for the feed, announced under the key `name`.
pub const DISPLAY_NAME: &'static str = "Toradex EasyInstaller Local PentaSono Feed";

/// The path of the feed's image list, announced under the key `path`.
pub const FEED_PATH: &'static str = "/image_list.json";

/// One key and value of the announcement's metadata.
#[derive(Debug, PartialEq, Eq)]
pub struct TxtEntry {
    pub key: String,
    pub value: String,
}

impl View for TxtEntry {
    type V = (Seq<char>, Seq<char>);

    open spec fn view(&self) -> (Seq<char>, Seq<char>) {
        (self.key@, self.value@)
    }
}

/// A service descriptor as a mathematical value.
pub struct DescriptorView {
    pub service_type: Seq<char>,
    pub instance_name: Seq<char>,
    pub hostname: Seq<char>,
    pub addresses: Seq<Ipv4Address>,
    pub port: u16,
    pub properties: Seq<(Seq<char>, Seq<char>)>,
}

/// Whether a key may stand in the metadata: it is ASCII and holds no `=`.
pub open spec fn key_announceable(key: Seq<char>) -> bool {
    is_ascii_chars(key) && !key.contains('=')
}

/// Whether every key of the metadata may stand there.
pub open spec fn keys_announceable(properties: Seq<(Seq<char>, Seq<char>)>) -> bool {
    forall|i: int| 0 <= i < properties.len() ==> key_announceable((#[trigger] properties[i]).0)
}

/// Whether no key occurs twice in the metadata.
pub open spec fn keys_distinct(properties: Seq<(Seq<char>, Seq<char>)>) -> bool {
    forall|i: int, j: int|
        0 <= i < j < properties.len() ==> (#[trigger] properties[i]).0 != (#[trigger] properties[j]).0
}

impl DescriptorView {
    /// Whether every key of the descriptor's metadata may stand there.
    pub open spec fn keys_announceable(self) -> bool {
        keys_announceable(self.properties)
    }

    /// Whether no key occurs twice in the descriptor's metadata.
    pub open spec fn keys_distinct(self) -> bool {
        keys_distinct(self.properties)
    }

    /// The full name of the service instance: the instance name, a dot, and
    /// the service type.
    pub open spec fn full_name(self) -> Seq<char> {
        self.instance_name + "."@ + self.service_type
    }
}

/// The metadata of the feed: four entries, in this order.
pub open spec fn feed_properties() -> Seq<(Seq<char>, Seq<char>)> {
    seq![
        ("name"@, DISPLAY_NAME@),
        ("path"@, FEED_PATH@),
        ("enabled"@, "1"@),
        ("https"@, "0"@),
    ]
}

/// The descriptor of the feed served by the machine named `machine` on `port`,
/// reachable under `addresses`.
pub open spec fn feed_descriptor(
    machine: Seq<char>,
    port: u16,
    addresses: Seq<Ipv4Address>,
) -> DescriptorView {
    DescriptorView {
        service_type: SERVICE_TYPE@,
        instance_name: INSTANCE_NAME@,
        hostname: machine + LOCAL_DOMAIN_SUFFIX@,
        addresses,
        port,
        properties: feed_properties(),
    }
}

/// The metadata of the feed is sound whatever the machine, the port and the
/// addresses: every key may stand there, so the announcement is never refused
/// for its keys, and no key occurs twice, so none of the four entries hides
/// another.
pub proof fn law_feed_metadata_is_sound(machine: Seq<char>, port: u16, addresses: Seq<Ipv4Address>)
    ensures
        feed_descriptor(machine, port, addresses).properties == feed_properties(),
        feed_descriptor(machine, port, addresses).keys_announceable(),
        feed_descriptor(machine, port, addresses).keys_distinct(),
{
    reveal_strlit("name");
    reveal_strlit("path");
    reveal_strlit("enabled");
    reveal_strlit("https");
    let properties = feed_properties();
    assert(properties[0].0 == "name"@ && properties[1].0 == "path"@ && properties[2].0
        == "enabled"@ && properties[3].0 == "https"@);
    assert("name"@[0] != "path"@[0]);
}

/// The descriptor of one service instance. It is made once and never changed.
#[derive(Debug, PartialEq, Eq)]
pub struct ServiceDescriptor {
    pub(crate) service_type: String,
    pub(crate) instance_name: String,
    pub(crate) hostname: String,
    pub(crate) addresses: Vec<Ipv4Address>,
    pub(crate) port: u16,
    pub(crate) properties: Vec<TxtEntry>,
}

impl View for ServiceDescriptor {
    type V = DescriptorView;

    open(crate) spec fn view(&self) -> DescriptorView {
        DescriptorView {
            service_type: self.service_type@,
            instance_name: self.instance_name@,
            hostname: self.hostname@,
            addresses: self.addresses@,
            port: self.port,
            properties: self.properties@.map_values(|entry: TxtEntry| entry@),
        }
    }
}

fn txt_entry(key: &str, value: &str) -> (r: TxtEntry)
    ensures
        r@ == (key@, value@),
{
    TxtEntry { key: String::from_str(key), value: String::from_str(value) }
}

impl ServiceDescriptor {
    /// The descriptor of the feed served by the machine named `machine` on
    /// `port`, reachable under `addresses`.
    pub fn local_feed(machine: &str, port: u16, addresses: Vec<Ipv4Address>) -> (r: Self)
        ensures
            r@ == feed_descriptor(machine@, port, addresses@),
            r@.keys_announceable(),
            r@.keys_distinct(),
    {
        proof {
            law_feed_metadata_is_sound(machine@, port, addresses@);
        }
        let mut hostname = String::from_str(machine);
        hostname.append(LOCAL_DOMAIN_SUFFIX);
        let mut properties: Vec<TxtEntry> = Vec::new();
        properties.push(txt_entry("name", DISPLAY_NAME));
        properties.push(txt_entry("path", FEED_PATH));
        properties.push(txt_entry("enabled", "1"));
        properties.push(txt_entry("https", "0"));
        let r = ServiceDescriptor {
            service_type: String::from_str(SERVICE_TYPE),
            instance_name: String::from_str(INSTANCE_NAME),
            hostname,
            addresses,
            port,
            properties,
        };
        assert(r@.properties =~= feed_properties());
        r
    }

    /// The full name under which the instance is registered.
    pub fn full_name(&self) -> (r: String)
        ensures
            r@ == self@.full_name(),
    {
        let mut name = self.instance_name.clone();
        name.append(".");
        name.append(self.service_type.as_str());
        name
    }

    /// The service type, with its domain.
    pub fn service_type(&self) -> (r: &str)
        ensures
            r@ == self@.service_type,
    {
        self.service_type.as_str()
    }

    /// The instance name.
    pub fn instance_name(&self) -> (r: &str)
        ensures
            r@ == self@.instance_name,
    {
        self.instance_name.as_str()
    }

    /// The announced host name.
    pub fn hostname(&self) -> (r: &str)
        ensures
            r@ == self@.hostname,
    {
        self.hostname.as_str()
    }

    /// The addresses under which the service is reached.
    pub fn addresses(&self) -> (r: &Vec<Ipv4Address>)
        ensures
            r@ == self@.addresses,
    {
        &self.addresses
    }

    /// The port on which the service is reached.
    pub fn port(&self) -> (r: u16)
        ensures
            r == self@.port,
    {
        self.port
    }

    /// The metadata, in the order in which it is announced.
    pub fn properties(&self) -> (r: &Vec<TxtEntry>)
        ensures
            r@.map_values(|entry: TxtEntry| entry@) == self@.properties,
    {
        &self.properties
    }
}

} // verus!
