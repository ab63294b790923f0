//! Multicast-DNS records: what this node announces about itself, and which
//! resolved services of other nodes become discovery events.

use vstd::prelude::*;
use crate::discovery::DiscoveryInternalEvent;
use crate::text::{
    after_last, contains_text, occurs_in, remove_char, text_after_last, text_eq, trim_text,
    trimmed, without_char,
};

verus! {

/// The service type under which nodes announce themselves.
pub open spec fn service_type() -> Seq<char> {
    "_droptea._tcp.local."@
}

/// The address of this machine when it serves as a Wi-Fi hotspot.
pub open spec fn hotspot_gateway() -> Seq<char> {
    "192.168.137.1"@
}

/// An announcement of this node on one address.
pub struct ServiceAdvert {
    pub service_type: String,
    pub instance: String,
    pub host: String,
    pub ip: String,
    pub port: u16,
    pub properties: Vec<(String, String)>,
}

/// The addresses on which this node announces itself: its main address,
/// and the hotspot gateway too where the platform can serve as a hotspot
/// and the two differ.
pub fn advert_ips(main_ip: &str, hotspot_platform: bool) -> (r: Vec<String>)
    ensures
        r@.len() == if hotspot_platform && main_ip@ != hotspot_gateway() { 2int } else { 1int },
        r@[0]@ == main_ip@,
        r@.len() == 2 ==> r@[1]@ == hotspot_gateway(),
{
    let mut r: Vec<String> = Vec::new();
    r.push(String::from_str(main_ip));
    if hotspot_platform && !text_eq(main_ip, "192.168.137.1") {
        r.push(String::from_str("192.168.137.1"));
    }
    r
}

/// The announcement of node `my_id`, named `my_name`, on address `ip`.
pub fn service_advert(my_id: &str, my_name: &str, ip: &str, port: u16) -> (r: ServiceAdvert)
    ensures
        r.service_type@ == service_type(),
        r.instance@ == "DropTea-"@ + my_id@ + (if ip@ == hotspot_gateway() {
            "-HS"@
        } else {
            Seq::<char>::empty()
        }),
        r.host@ == my_id@ + ".local."@,
        r.ip@ == ip@,
        r.port == port,
        r.properties@.len() == 4,
        r.properties@[0].0@ == "id"@ && r.properties@[0].1@ == my_id@,
        r.properties@[1].0@ == "ver"@ && r.properties@[1].1@ == "1.0"@,
        r.properties@[2].0@ == "name"@ && r.properties@[2].1@ == my_name@,
        r.properties@[3].0@ == "type"@ && r.properties@[3].1@ == (if ip@ == hotspot_gateway() {
            "hotspot"@
        } else {
            "lan"@
        }),
{
    let is_hotspot = text_eq(ip, "192.168.137.1");
    let mut instance = String::from_str("DropTea-");
    instance.append(my_id);
    if is_hotspot {
        instance.append("-HS");
    } else {
        assert(instance@ + Seq::<char>::empty() =~= instance@);
    }
    let host = String::from_str(my_id).concat(".local.");
    let mut properties: Vec<(String, String)> = Vec::new();
    properties.push((String::from_str("id"), String::from_str(my_id)));
    properties.push((String::from_str("ver"), String::from_str("1.0")));
    properties.push((String::from_str("name"), String::from_str(my_name)));
    let kind = if is_hotspot {
        String::from_str("hotspot")
    } else {
        String::from_str("lan")
    };
    properties.push((String::from_str("type"), kind));
    ServiceAdvert {
        service_type: String::from_str("_droptea._tcp.local."),
        instance,
        host,
        ip: String::from_str(ip),
        port,
        properties,
    }
}

/// The first address that is not an IPv6 one (has no colon).
pub open spec fn first_v4(a: Seq<Seq<char>>) -> Option<Seq<char>>
    decreases a.len(),
{
    if a.len() == 0 {
        None
    } else if !occurs_in(":"@, a[0]) {
        Some(a[0])
    } else {
        first_v4(a.drop_first())
    }
}

/// The address to use: the first IPv4 one, else the first of any kind.
pub open spec fn best_address(a: Seq<Seq<char>>) -> Option<Seq<char>> {
    match first_v4(a) {
        Some(x) => Some(x),
        None => if a.len() > 0 {
            Some(a[0])
        } else {
            None
        },
    }
}

/// An IPv6 address text in brackets; any other as it is.
pub open spec fn bracketed_if_v6(ip: Seq<char>) -> Seq<char> {
    if occurs_in(":"@, ip) {
        "["@ + ip + "]"@
    } else {
        ip
    }
}

/// An address text without brackets.
pub open spec fn unbracketed(ip: Seq<char>) -> Seq<char> {
    without_char(without_char(ip, '['), ']')
}

/// What a resolved service becomes, as (id, name, address, port): nothing
/// when it is this node's own, has no address, or is at one of this node's
/// own addresses.
pub open spec fn browse_spec(
    my_id: Seq<char>,
    main_ip: Seq<char>,
    fullname: Seq<char>,
    addresses: Seq<Seq<char>>,
    port: u16,
    name_property: Option<Seq<char>>,
) -> Option<(Seq<char>, Seq<char>, Seq<char>, u16)> {
    if occurs_in(my_id, fullname) {
        None
    } else {
        match best_address(addresses) {
            None => None,
            Some(a) => {
                let ip = bracketed_if_v6(a);
                let clean = unbracketed(ip);
                if clean == main_ip || clean == hotspot_gateway() {
                    None
                } else {
                    let raw = match name_property {
                        Some(t) => t,
                        None => "Unknown"@,
                    };
                    Some((fullname, trimmed(after_last(raw, '=')), ip, port))
                }
            },
        }
    }
}

/// The address that a list of address texts offers, by `best_address`.
pub fn pick_address(addresses: &Vec<String>) -> (r: Option<String>)
    ensures
        match r {
            Some(s) => best_address(crate::ble::texts_of(addresses@)) == Some(s@),
            None => best_address(crate::ble::texts_of(addresses@)) is None,
        },
{
    let ghost a = crate::ble::texts_of(addresses@);
    let n = addresses.len();
    let mut i: usize = 0;
    assert(a.subrange(0, n as int) =~= a);
    while i < n
        invariant
            n == addresses@.len(),
            a == crate::ble::texts_of(addresses@),
            i <= n,
            first_v4(a) == first_v4(a.subrange(i as int, n as int)),
        decreases n - i,
    {
        let ghost rest = a.subrange(i as int, n as int);
        assert(rest[0] == addresses@[i as int]@);
        assert(rest.drop_first() =~= a.subrange(i + 1, n as int));
        if !contains_text(addresses[i].as_str(), ":") {
            return Some(addresses[i].clone());
        }
        i = i + 1;
    }
    assert(a.subrange(n as int, n as int) =~= Seq::<Seq<char>>::empty());
    if n > 0 {
        assert(a[0] == addresses@[0]@);
        Some(addresses[0].clone())
    } else {
        None
    }
}

/// The discovery event for a resolved service of another node, if any:
/// `addresses` are the service's address texts, `name_property` the text of
/// its `name` property as `key=value`.
pub fn browse_found(
    my_id: &str,
    main_ip: &str,
    fullname: &str,
    addresses: &Vec<String>,
    port: u16,
    name_property: Option<String>,
) -> (r: Option<DiscoveryInternalEvent>)
    ensures
        match r {
            None => browse_spec(
                my_id@,
                main_ip@,
                fullname@,
                crate::ble::texts_of(addresses@),
                port,
                match name_property {
                    Some(t) => Some(t@),
                    None => None,
                },
            ) is None,
            Some(DiscoveryInternalEvent::MdnsFound { id, name, ip, port: p }) => browse_spec(
                my_id@,
                main_ip@,
                fullname@,
                crate::ble::texts_of(addresses@),
                port,
                match name_property {
                    Some(t) => Some(t@),
                    None => None,
                },
            ) == Some((id@, name@, ip@, p)),
            Some(_) => false,
        },
{
    if contains_text(fullname, my_id) {
        return None;
    }
    let best = match pick_address(addresses) {
        Some(b) => b,
        None => return None,
    };
    let ip = if contains_text(best.as_str(), ":") {
        String::from_str("[").concat(best.as_str()).concat("]")
    } else {
        best
    };
    let clean = remove_char(remove_char(ip.as_str(), '[').as_str(), ']');
    if text_eq(clean.as_str(), main_ip) || text_eq(clean.as_str(), "192.168.137.1") {
        return None;
    }
    let raw = match name_property {
        Some(t) => t,
        None => String::from_str("Unknown"),
    };
    let name = trim_text(text_after_last(raw.as_str(), '=').as_str());
    Some(DiscoveryInternalEvent::MdnsFound { id: String::from_str(fullname), name, ip, port })
}

} // verus!
