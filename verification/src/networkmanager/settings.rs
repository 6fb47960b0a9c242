//! The settings surface of the network daemon.
//!
//! A stored profile is a dictionary of sections, each section a
//! dictionary of dynamically typed values.  [`Settings`] splits a profile
//! into its named sections and reassembles them; each section's entries
//! are carried in their wire shape.

use vstd::prelude::*;

use crate::fault::BusFault;
use crate::networkmanager::connection::Connection;
use crate::text::str_eq;
use crate::wire::{clone_keyed_entries, WireV, WireValue};

verus! {

broadcast use vstd::std_specs::vec::group_vec_axioms, vstd::seq::group_seq_axioms;

/// The bound settings surface of the daemon.
pub struct NetworkManagerSettings {}

impl NetworkManagerSettings {
    /// Binds the daemon's settings surface.
    pub fn new() -> (r: NetworkManagerSettings) {
        NetworkManagerSettings {}
    }

    /// Binds the stored connection profiles from the paths the daemon
    /// reported, in order.
    pub fn list_connections(&self, paths: Vec<String>) -> (r: Vec<Connection>)
        ensures
            r.deep_view() == paths.deep_view(),
    {
        let mut out: Vec<Connection> = Vec::new();
        let n = paths.len();
        let mut i: usize = 0;
        while i < n
            invariant
                0 <= i <= n,
                n == paths@.len(),
                paths.deep_view().len() == n,
                forall|j: int| 0 <= j < n ==> #[trigger] paths.deep_view()[j] == paths@[j]@,
                out@.len() == i,
                forall|j: int| 0 <= j < i ==> (#[trigger] out@[j])@ == paths@[j]@,
            decreases n - i,
        {
            out.push(Connection::new(paths[i].clone()));
            i = i + 1;
        }
        proof {
            assert(out.deep_view() =~= paths.deep_view());
        }
        out
    }
}

/// The first section stored under `k` in a profile dictionary.
pub open spec fn section_of(
    src: Seq<(Seq<char>, Seq<(Seq<char>, WireV)>)>,
    k: Seq<char>,
) -> Option<Seq<(Seq<char>, WireV)>>
    decreases src.len(),
{
    if src.len() == 0 {
        None
    } else if src[0].0 == k {
        Some(src[0].1)
    } else {
        section_of(src.drop_first(), k)
    }
}

/// The modelled entries of an optional section.
pub open spec fn group_view<T: View<V = Seq<(Seq<char>, WireV)>>>(g: Option<T>) -> Option<
    Seq<(Seq<char>, WireV)>,
> {
    match g {
        Some(v) => Some(v@),
        None => None,
    }
}

/// A section of the built profile dictionary: one keyed entry when the
/// section is present, nothing otherwise.
pub open spec fn built_section(
    k: Seq<char>,
    g: Option<Seq<(Seq<char>, WireV)>>,
) -> Seq<(Seq<char>, Seq<(Seq<char>, WireV)>)> {
    match g {
        Some(es) => seq![(k, es)],
        None => Seq::empty(),
    }
}

/// The general connection properties of a profile, as the keyed wire entries of its section.
#[derive(Debug)]
pub struct ConnectionSettings {
    entries: Vec<(String, WireValue)>,
}

impl View for ConnectionSettings {
    type V = Seq<(Seq<char>, WireV)>;

    closed spec fn view(&self) -> Seq<(Seq<char>, WireV)> {
        self.entries.deep_view()
    }
}

impl ConnectionSettings {
    /// Holds a section's raw entries.
    pub fn new(entries: Vec<(String, WireValue)>) -> (r: ConnectionSettings)
        ensures
            r@ == entries.deep_view(),
    {
        ConnectionSettings { entries }
    }

    /// The section's entries, back in their wire shape.
    pub fn build(&self) -> (r: Vec<(String, WireValue)>)
        ensures
            r.deep_view() == self@,
    {
        clone_keyed_entries(&self.entries)
    }
}

/// The wired-link properties of a profile, as the keyed wire entries of its section.
#[derive(Debug)]
pub struct EthernetSettings {
    entries: Vec<(String, WireValue)>,
}

impl View for EthernetSettings {
    type V = Seq<(Seq<char>, WireV)>;

    closed spec fn view(&self) -> Seq<(Seq<char>, WireV)> {
        self.entries.deep_view()
    }
}

impl EthernetSettings {
    /// Holds a section's raw entries.
    pub fn new(entries: Vec<(String, WireValue)>) -> (r: EthernetSettings)
        ensures
            r@ == entries.deep_view(),
    {
        EthernetSettings { entries }
    }

    /// The section's entries, back in their wire shape.
    pub fn build(&self) -> (r: Vec<(String, WireValue)>)
        ensures
            r.deep_view() == self@,
    {
        clone_keyed_entries(&self.entries)
    }
}

/// The wireless-link properties of a profile, as the keyed wire entries of its section.
#[derive(Debug)]
pub struct WifiSettings {
    entries: Vec<(String, WireValue)>,
}

impl View for WifiSettings {
    type V = Seq<(Seq<char>, WireV)>;

    closed spec fn view(&self) -> Seq<(Seq<char>, WireV)> {
        self.entries.deep_view()
    }
}

impl WifiSettings {
    /// Holds a section's raw entries.
    pub fn new(entries: Vec<(String, WireValue)>) -> (r: WifiSettings)
        ensures
            r@ == entries.deep_view(),
    {
        WifiSettings { entries }
    }

    /// The section's entries, back in their wire shape.
    pub fn build(&self) -> (r: Vec<(String, WireValue)>)
        ensures
            r.deep_view() == self@,
    {
        clone_keyed_entries(&self.entries)
    }
}

/// The Bluetooth-link properties of a profile, as the keyed wire entries of its section.
#[derive(Debug)]
pub struct BluetoothSettings {
    entries: Vec<(String, WireValue)>,
}

impl View for BluetoothSettings {
    type V = Seq<(Seq<char>, WireV)>;

    closed spec fn view(&self) -> Seq<(Seq<char>, WireV)> {
        self.entries.deep_view()
    }
}

impl BluetoothSettings {
    /// Holds a section's raw entries.
    pub fn new(entries: Vec<(String, WireValue)>) -> (r: BluetoothSettings)
        ensures
            r@ == entries.deep_view(),
    {
        BluetoothSettings { entries }
    }

    /// The section's entries, back in their wire shape.
    pub fn build(&self) -> (r: Vec<(String, WireValue)>)
        ensures
            r.deep_view() == self@,
    {
        clone_keyed_entries(&self.entries)
    }
}

/// The four-octet addressing properties of a profile, as the keyed wire entries of its section.
#[derive(Debug)]
pub struct Ipv4Settings {
    entries: Vec<(String, WireValue)>,
}

impl View for Ipv4Settings {
    type V = Seq<(Seq<char>, WireV)>;

    closed spec fn view(&self) -> Seq<(Seq<char>, WireV)> {
        self.entries.deep_view()
    }
}

impl Ipv4Settings {
    /// Holds a section's raw entries.
    pub fn new(entries: Vec<(String, WireValue)>) -> (r: Ipv4Settings)
        ensures
            r@ == entries.deep_view(),
    {
        Ipv4Settings { entries }
    }

    /// The section's entries, back in their wire shape.
    pub fn build(&self) -> (r: Vec<(String, WireValue)>)
        ensures
            r.deep_view() == self@,
    {
        clone_keyed_entries(&self.entries)
    }
}

/// The sixteen-octet addressing properties of a profile, as the keyed wire entries of its section.
#[derive(Debug)]
pub struct Ipv6Settings {
    entries: Vec<(String, WireValue)>,
}

impl View for Ipv6Settings {
    type V = Seq<(Seq<char>, WireV)>;

    closed spec fn view(&self) -> Seq<(Seq<char>, WireV)> {
        self.entries.deep_view()
    }
}

impl Ipv6Settings {
    /// Holds a section's raw entries.
    pub fn new(entries: Vec<(String, WireValue)>) -> (r: Ipv6Settings)
        ensures
            r@ == entries.deep_view(),
    {
        Ipv6Settings { entries }
    }

    /// The section's entries, back in their wire shape.
    pub fn build(&self) -> (r: Vec<(String, WireValue)>)
        ensures
            r.deep_view() == self@,
    {
        clone_keyed_entries(&self.entries)
    }
}

/// The web-proxy properties of a profile, as the keyed wire entries of its section.
#[derive(Debug)]
pub struct WwwProxySettings {
    entries: Vec<(String, WireValue)>,
}

impl View for WwwProxySettings {
    type V = Seq<(Seq<char>, WireV)>;

    closed spec fn view(&self) -> Seq<(Seq<char>, WireV)> {
        self.entries.deep_view()
    }
}

impl WwwProxySettings {
    /// Holds a section's raw entries.
    pub fn new(entries: Vec<(String, WireValue)>) -> (r: WwwProxySettings)
        ensures
            r@ == entries.deep_view(),
    {
        WwwProxySettings { entries }
    }

    /// The section's entries, back in their wire shape.
    pub fn build(&self) -> (r: Vec<(String, WireValue)>)
        ensures
            r.deep_view() == self@,
    {
        clone_keyed_entries(&self.entries)
    }
}

/// The wireless-security properties of a profile, as the keyed wire entries of its section.
#[derive(Debug)]
pub struct WifiSecurity {
    entries: Vec<(String, WireValue)>,
}

impl View for WifiSecurity {
    type V = Seq<(Seq<char>, WireV)>;

    closed spec fn view(&self) -> Seq<(Seq<char>, WireV)> {
        self.entries.deep_view()
    }
}

impl WifiSecurity {
    /// Holds a section's raw entries.
    pub fn new(entries: Vec<(String, WireValue)>) -> (r: WifiSecurity)
        ensures
            r@ == entries.deep_view(),
    {
        WifiSecurity { entries }
    }

    /// The section's entries, back in their wire shape.
    pub fn build(&self) -> (r: Vec<(String, WireValue)>)
        ensures
            r.deep_view() == self@,
    {
        clone_keyed_entries(&self.entries)
    }
}

/// The first section stored under `key`, as owned entries.
fn find_section(src: &Vec<(String, Vec<(String, WireValue)>)>, key: &str) -> (r: Option<
    Vec<(String, WireValue)>,
>)
    ensures
        match r {
            Some(es) => section_of(src.deep_view(), key@) == Some(es.deep_view()),
            None => section_of(src.deep_view(), key@) is None,
        },
{
    let ghost dv = src.deep_view();
    let n = src.len();
    let mut i: usize = 0;
    proof {
        assert(dv.skip(0) =~= dv);
    }
    while i < n
        invariant
            0 <= i <= n,
            n == src@.len(),
            dv == src.deep_view(),
            dv.len() == n,
            forall|p: int| 0 <= p < n ==> #[trigger] dv[p] == (src@[p].0@,
                src@[p].1.deep_view()),
            section_of(dv, key@) == section_of(dv.skip(i as int), key@),
        decreases n - i,
    {
        proof {
            assert(dv.skip(i as int).drop_first() =~= dv.skip(i as int + 1));
            assert(dv.skip(i as int)[0] == dv[i as int]);
        }
        if str_eq(src[i].0.as_str(), key) {
            proof {
                assert(section_of(dv.skip(i as int), key@) == Some(dv[i as int].1));
            }
            return Some(clone_keyed_entries(&src[i].1));
        }
        i = i + 1;
    }
    proof {
        assert(dv.skip(n as int) =~= Seq::<(Seq<char>, Seq<(Seq<char>, WireV)>)>::empty());
    }
    None
}

/// A stored connection profile, split into its named sections.
#[derive(Debug)]
pub struct Settings {
    pub connection: Option<ConnectionSettings>,
    pub ethernet: Option<EthernetSettings>,
    pub wifi: Option<WifiSettings>,
    pub bluetooth: Option<BluetoothSettings>,
    pub ipv4: Option<Ipv4Settings>,
    pub ipv6: Option<Ipv6Settings>,
    pub proxy: Option<WwwProxySettings>,
}

impl Settings {
    /// Splits a profile dictionary into its named sections, reading the
    /// first occurrence of each.
    pub fn new(src: Vec<(String, Vec<(String, WireValue)>)>) -> (r: Settings)
        ensures
            group_view(r.connection) == section_of(src.deep_view(), "connection"@),
            group_view(r.ethernet) == section_of(src.deep_view(), "802-3-ethernet"@),
            group_view(r.wifi) == section_of(src.deep_view(), "802-11-wireless"@),
            group_view(r.bluetooth) == section_of(src.deep_view(), "bluetooth"@),
            group_view(r.ipv4) == section_of(src.deep_view(), "ipv4"@),
            group_view(r.ipv6) == section_of(src.deep_view(), "ipv6"@),
            group_view(r.proxy) == section_of(src.deep_view(), "proxy"@),
    {
        let connection = match find_section(&src, "connection") {
            Some(es) => Some(ConnectionSettings::new(es)),
            None => None,
        };
        let ethernet = match find_section(&src, "802-3-ethernet") {
            Some(es) => Some(EthernetSettings::new(es)),
            None => None,
        };
        let wifi = match find_section(&src, "802-11-wireless") {
            Some(es) => Some(WifiSettings::new(es)),
            None => None,
        };
        let bluetooth = match find_section(&src, "bluetooth") {
            Some(es) => Some(BluetoothSettings::new(es)),
            None => None,
        };
        let ipv4 = match find_section(&src, "ipv4") {
            Some(es) => Some(Ipv4Settings::new(es)),
            None => None,
        };
        let ipv6 = match find_section(&src, "ipv6") {
            Some(es) => Some(Ipv6Settings::new(es)),
            None => None,
        };
        let proxy = match find_section(&src, "proxy") {
            Some(es) => Some(WwwProxySettings::new(es)),
            None => None,
        };
        Settings { connection, ethernet, wifi, bluetooth, ipv4, ipv6, proxy }
    }

    /// Reassembles the profile dictionary: one entry per present
    /// section, in a fixed section order.
    pub fn build(&self) -> (r: Vec<(String, Vec<(String, WireValue)>)>)
        ensures
            r.deep_view() =~= built_section("connection"@, group_view(self.connection))
                + built_section("802-3-ethernet"@, group_view(self.ethernet)) + built_section(
                "802-11-wireless"@,
                group_view(self.wifi),
            ) + built_section("bluetooth"@, group_view(self.bluetooth)) + built_section(
                "ipv4"@,
                group_view(self.ipv4),
            ) + built_section("ipv6"@, group_view(self.ipv6)) + built_section(
                "proxy"@,
                group_view(self.proxy),
            ),
    {
        let mut out: Vec<(String, Vec<(String, WireValue)>)> = Vec::new();
        if let Some(g) = &self.connection {
            out.push(("connection".to_owned(), g.build()));
        }
        if let Some(g) = &self.ethernet {
            out.push(("802-3-ethernet".to_owned(), g.build()));
        }
        if let Some(g) = &self.wifi {
            out.push(("802-11-wireless".to_owned(), g.build()));
        }
        if let Some(g) = &self.bluetooth {
            out.push(("bluetooth".to_owned(), g.build()));
        }
        if let Some(g) = &self.ipv4 {
            out.push(("ipv4".to_owned(), g.build()));
        }
        if let Some(g) = &self.ipv6 {
            out.push(("ipv6".to_owned(), g.build()));
        }
        if let Some(g) = &self.proxy {
            out.push(("proxy".to_owned(), g.build()));
        }
        proof {
            assert(out.deep_view() =~= built_section("connection"@, group_view(self.connection))
                + built_section("802-3-ethernet"@, group_view(self.ethernet)) + built_section(
                "802-11-wireless"@,
                group_view(self.wifi),
            ) + built_section("bluetooth"@, group_view(self.bluetooth)) + built_section(
                "ipv4"@,
                group_view(self.ipv4),
            ) + built_section("ipv6"@, group_view(self.ipv6)) + built_section(
                "proxy"@,
                group_view(self.proxy),
            ));
        }
        out
    }
}

/// The secrets of a profile: its wireless-security section, when the
/// daemon handed one out.
#[derive(Debug)]
pub struct Secrets {
    pub wifi: Option<WifiSecurity>,
}

impl Secrets {
    /// Reads a secrets reply: the wireless-security section when the
    /// call succeeded and the section is present, nothing on any fault
    /// or absence.
    pub fn new(outcome: Result<Vec<(String, Vec<(String, WireValue)>)>, BusFault>) -> (r:
        Secrets)
        ensures
            match outcome {
                Ok(sections) => group_view(r.wifi) == section_of(
                    sections.deep_view(),
                    "802-11-wireless-security"@,
                ),
                Err(_) => r.wifi is None,
            },
    {
        match outcome {
            Ok(sections) => {
                let wifi = match find_section(&sections, "802-11-wireless-security") {
                    Some(es) => Some(WifiSecurity::new(es)),
                    None => None,
                };
                Secrets { wifi }
            }
            Err(_) => Secrets { wifi: None },
        }
    }
}

} // verus!
