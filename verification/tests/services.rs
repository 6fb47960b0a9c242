use busbind::bluez::{Adapter, BatteryProbe, BluetoothDevice, Capability, Device};
use busbind::discovery::{collect_or_last_error, first_with_interface, paths_with_interface};
use busbind::fault::BusFault;
use busbind::geoclue2::Accuracy;
use busbind::networkmanager::access_point::AccessPoint;
use busbind::networkmanager::active_connection::ActiveConnection;
use busbind::networkmanager::clock_boottime_to_time;
use busbind::networkmanager::config::{parse_ipv4, Ipv4Address, Ipv4Config, Ipv6Config};
use busbind::networkmanager::device::{Device as NmDevice, SpecificDevice, TunDevice};
use busbind::networkmanager::enums::{
    ActiveConnectionState, DeviceState, DeviceType, NmConnectivityState, NmState, WifiMode,
};
use busbind::networkmanager::flags::{
    ActivationStateFlags, ApFlags, ApSecurityFlags, DeviceCapabilities, WifiCapabilities,
    ACTIVATION_IS_MASTER, AP_FLAG_PRIVACY, DEVICE_CAP_SUPPORTED,
};
use busbind::networkmanager::nm::NetworkManager;
use busbind::portal::{OpenOptions, Response, SaveOptions};
use busbind::text::{contains, matches_keyword, parse_i64, starts_with, str_eq};
use busbind::networkmanager::settings::{Secrets, Settings};
use busbind::upower::{BatteryLevel, BatteryState, BatteryTechnology, BatteryType};
use busbind::wire::WireValue;

fn objects() -> Vec<(String, Vec<String>)> {
    vec![
        (
            "/org/bluez/hci0".to_owned(),
            vec!["org.bluez.Adapter1".to_owned(), "org.freedesktop.DBus.Introspectable".to_owned()],
        ),
        (
            "/org/bluez/hci0/dev_AA".to_owned(),
            vec!["org.bluez.Device1".to_owned()],
        ),
        (
            "/org/bluez/hci1/dev_BB".to_owned(),
            vec!["org.bluez.Device1".to_owned(), "org.bluez.Battery1".to_owned()],
        ),
        ("/org/other".to_owned(), vec!["org.example.Thing".to_owned()]),
    ]
}

#[test]
fn discovery_filters_by_interface() {
    let objs = objects();
    let adapters = paths_with_interface(&objs, "org.bluez.Adapter1");
    assert_eq!(adapters, vec!["/org/bluez/hci0".to_owned()]);
    let devices = paths_with_interface(&objs, "org.bluez.Device1");
    assert_eq!(
        devices,
        vec!["/org/bluez/hci0/dev_AA".to_owned(), "/org/bluez/hci1/dev_BB".to_owned()]
    );
    assert_eq!(
        first_with_interface(&objs, "org.bluez.Device1"),
        Some("/org/bluez/hci0/dev_AA".to_owned())
    );
    assert_eq!(first_with_interface(&objs, "org.missing"), None);
}

#[test]
fn collect_reports_last_error() {
    let ok: Result<Vec<u32>, &str> = collect_or_last_error(vec![Ok(1), Ok(2), Ok(3)]);
    assert_eq!(ok.unwrap(), vec![1, 2, 3]);
    let err: Result<Vec<u32>, &str> =
        collect_or_last_error(vec![Ok(1), Err("first"), Ok(2), Err("last")]);
    assert_eq!(err.unwrap_err(), "last");
}

#[test]
fn bluez_adapters_and_devices() {
    let objs = objects();
    let adapters = Adapter::list_all_adapters(&objs);
    assert_eq!(adapters.len(), 1);
    assert_eq!(adapters[0].path(), "/org/bluez/hci0");
    assert_eq!(Adapter::auto(&objs).unwrap().path(), "/org/bluez/hci0");
    let devices = Device::list_all_devices(&objs);
    assert_eq!(devices.len(), 2);
    let under = busbind::bluez::device_paths(&objs, Some("/org/bluez/hci0"));
    assert_eq!(under, vec!["/org/bluez/hci0/dev_AA".to_owned()]);
    let all = busbind::bluez::device_paths(&objs, None);
    assert_eq!(all.len(), 2);
}

#[test]
fn bluetooth_device_battery_join() {
    let with = BluetoothDevice::new("/d".to_owned(), Ok(()), BatteryProbe::Answering).unwrap();
    assert!(with.has_battery());
    assert_eq!(with.path(), "/d");
    let unresponsive =
        BluetoothDevice::new("/d".to_owned(), Ok(()), BatteryProbe::Unresponsive).unwrap();
    assert!(!unresponsive.has_battery());
    let missing = BluetoothDevice::new("/d".to_owned(), Ok(()), BatteryProbe::Missing).unwrap();
    assert!(!missing.has_battery());
    let dead = BluetoothDevice::new(
        "/d".to_owned(),
        Err(BusFault::Other("no device".to_owned())),
        BatteryProbe::Answering,
    );
    assert!(dead.is_err());
    let battery_broken = BluetoothDevice::new(
        "/d".to_owned(),
        Ok(()),
        BatteryProbe::Failed(BusFault::Other("io".to_owned())),
    );
    assert!(battery_broken.is_err());
    assert_eq!(missing.icon(Ok("audio-headset".to_owned())), "audio-headset");
    assert_eq!(
        missing.icon(Err(BusFault::Other("io".to_owned()))),
        "unknown"
    );
}

#[test]
fn capability_text() {
    assert_eq!(Capability::DisplayOnly.as_str(), "DisplayOnly");
    assert_eq!(Capability::NoInputNoOutput.as_str(), "NoInputNoOutput");
}

#[test]
fn nm_state_codes() {
    assert_eq!(NmState::from(10u32), NmState::Asleep);
    assert_eq!(NmState::from(70u32), NmState::ConnectedGlobal);
    assert_eq!(NmState::from(71u32), NmState::Unknown);
    assert_eq!(NmConnectivityState::from(4u32), NmConnectivityState::Full);
    assert_eq!(NmConnectivityState::from(9u32), NmConnectivityState::Unknown);
    assert_eq!(DeviceType::from(1u32), DeviceType::Ethernet);
    assert_eq!(DeviceType::from(29u32), DeviceType::WireGuard);
    assert_eq!(DeviceType::from(17u32), DeviceType::Other);
    assert_eq!(DeviceType::from(33u32), DeviceType::Unknown);
    assert_eq!(DeviceState::from(100u32), DeviceState::Activated);
    assert_eq!(DeviceState::from(121u32), DeviceState::Unknown);
    assert_eq!(ActiveConnectionState::from(2u32), ActiveConnectionState::Activated);
    assert_eq!(WifiMode::from(3u32), WifiMode::Ap);
    assert_eq!(WifiMode::from(0u32), WifiMode::Unknown);
}

#[test]
fn flag_sets_truncate_to_published_bits() {
    let caps = DeviceCapabilities::from_bits_truncate(0xff);
    assert_eq!(caps.bits(), 0xf);
    assert!(caps.contains(DEVICE_CAP_SUPPORTED));
    let wifi = WifiCapabilities::from_bits_truncate(0xffff);
    assert_eq!(wifi.bits(), 0x37ff);
    let act = ActivationStateFlags::from_bits_truncate(0x1_01);
    assert_eq!(act.bits(), 0x1);
    assert!(act.contains(ACTIVATION_IS_MASTER));
    let ap = ApFlags::from_bits_truncate(0x13);
    assert_eq!(ap.bits(), 0x3);
    assert!(ap.contains(AP_FLAG_PRIVACY));
    let sec = ApSecurityFlags::from_bits_truncate(0xffff);
    assert_eq!(sec.bits(), 0x3fff);
}

#[test]
fn device_downcast_follows_type() {
    let dev = NmDevice::new("/nm/dev/0".to_owned());
    assert_eq!(dev.path(), "/nm/dev/0");
    let wifi = dev.downcast_to_device(DeviceType::Wifi).unwrap();
    let wifi = wifi.into_wireless().unwrap();
    assert_eq!(wifi.upcast().path(), "/nm/dev/0");
    let eth = dev.downcast_to_device(DeviceType::Ethernet).unwrap();
    assert!(eth.into_wired().is_some());
    let bt = dev.downcast_to_device(DeviceType::Bluetooth).unwrap();
    assert!(bt.into_bluetooth().is_some());
    let tun = dev.downcast_to_device(DeviceType::TunTap).unwrap();
    assert!(tun.into_tun().is_some());
    let wg = dev.downcast_to_device(DeviceType::WireGuard).unwrap();
    assert!(wg.into_wireguard().is_some());
    assert!(dev.downcast_to_device(DeviceType::Generic).is_none());
    let mismatched = dev.downcast_to_device(DeviceType::Wifi).unwrap();
    assert!(mismatched.into_wired().is_none());
}

#[test]
fn specific_device_mismatch_is_none() {
    let tun = TunDevice::new("/nm/dev/t".to_owned());
    let d = SpecificDevice::TunTap(tun);
    assert!(d.into_bluetooth().is_none());
}

#[test]
fn tun_owner_reading() {
    let tun = TunDevice::new("/nm/dev/t".to_owned());
    assert_eq!(tun.owner(Ok(-1)).unwrap(), None);
    assert_eq!(tun.owner(Ok(1000)).unwrap(), Some(1000));
    assert_eq!(tun.owner(Ok(70000)).unwrap(), None);
    assert!(tun.owner(Err(BusFault::Other("io".to_owned()))).is_err());
}

#[test]
fn ipv4_text_parsing() {
    let a = parse_ipv4("192.168.0.1").unwrap();
    assert_eq!(a.octets, [192, 168, 0, 1]);
    assert_eq!(parse_ipv4("0.0.0.0").unwrap().octets, [0, 0, 0, 0]);
    assert_eq!(parse_ipv4("255.255.255.255").unwrap().octets, [255, 255, 255, 255]);
    assert!(parse_ipv4("256.0.0.1").is_none());
    assert!(parse_ipv4("01.2.3.4").is_none());
    assert!(parse_ipv4("1.2.3").is_none());
    assert!(parse_ipv4("1.2.3.4.5").is_none());
    assert!(parse_ipv4("1.2.3.x").is_none());
    assert!(parse_ipv4("").is_none());
}

#[test]
fn ipv4_packed_forms() {
    assert_eq!(Ipv4Address::from_be(0xC0A80001).octets, [192, 168, 0, 1]);
    assert_eq!(Ipv4Address::from_le(0x0100A8C0).octets, [192, 168, 0, 1]);
}

#[test]
fn ipv4_config_readings() {
    let cfg = Ipv4Config::new("/nm/ip4/0".to_owned());
    assert_eq!(cfg.path(), "/nm/ip4/0");
    let rows = cfg.addresses(vec![vec![0x0100A8C0], vec![]]);
    assert_eq!(rows.len(), 2);
    assert_eq!(rows[0][0].octets, [192, 168, 0, 1]);
    let data = cfg.address_data(vec![
        vec![
            ("address".to_owned(), WireValue::Str("10.0.0.2".to_owned())),
            ("prefix".to_owned(), WireValue::U32(24)),
        ],
        vec![("address".to_owned(), WireValue::Str("bad".to_owned()))],
        vec![("prefix".to_owned(), WireValue::U32(16))],
        vec![
            ("address".to_owned(), WireValue::Str("10.0.0.3".to_owned())),
            ("prefix".to_owned(), WireValue::Str("24".to_owned())),
        ],
    ]);
    assert_eq!(data.len(), 1);
    assert_eq!(data[0].address.octets, [10, 0, 0, 2]);
    assert_eq!(data[0].prefix, 24);
}

#[test]
fn ipv6_config_readings() {
    let cfg = Ipv6Config::new("/nm/ip6/0".to_owned());
    let addrs = cfg.addresses(vec![(vec![0; 16], 64, vec![0; 16])]);
    assert_eq!(addrs.len(), 1);
    assert_eq!(addrs[0].octets.len(), 16);
}

#[test]
fn boot_relative_timestamps() {
    assert_eq!(clock_boottime_to_time(30, 1_700_000_000), Some(1_700_000_030));
    assert_eq!(clock_boottime_to_time(-30, 1_700_000_000), Some(1_699_999_970));
    assert_eq!(clock_boottime_to_time(5, u64::MAX), None);
    let ap = AccessPoint::new("/nm/ap/0".to_owned());
    assert_eq!(ap.last_seen(Ok(30), 1_700_000_000).unwrap(), Some(1_700_000_030));
}

#[test]
fn network_manager_surfaces() {
    let nm = NetworkManager::new();
    assert_eq!(nm.state(Ok(50)).unwrap(), NmState::ConnectedLocal);
    assert_eq!(nm.connectivity(Ok(2)).unwrap(), NmConnectivityState::Portal);
    assert_eq!(nm.check_connectivity(Ok(3)).unwrap(), NmConnectivityState::Loss);
    let devices = nm.devices(vec!["/nm/dev/0".to_owned(), "/nm/dev/1".to_owned()]);
    assert_eq!(devices.len(), 2);
    assert_eq!(devices[1].path(), "/nm/dev/1");
    let active = nm.active_connections(vec!["/nm/ac/0".to_owned()]);
    assert_eq!(active[0].path(), "/nm/ac/0");
    let conns = nm.settings().list_connections(vec!["/nm/conn/0".to_owned()]);
    assert_eq!(conns[0].path(), "/nm/conn/0");
    let ac = ActiveConnection::new("/nm/ac/1".to_owned());
    assert_eq!(ac.state(Ok(2)).unwrap(), ActiveConnectionState::Activated);
    assert_eq!(ac.state_flags(Ok(0x1ff)).unwrap().bits(), 0xff);
}

#[test]
fn battery_codes() {
    assert_eq!(BatteryState::from_code(1), Some(BatteryState::Charging));
    assert_eq!(BatteryState::from_code(7), None);
    assert_eq!(BatteryState::Charging.code(), 1);
    assert_eq!(BatteryType::from_code(2), Some(BatteryType::Battery));
    assert_eq!(BatteryType::from_code(29), None);
    assert_eq!(BatteryLevel::from_code(2), None);
    assert_eq!(BatteryLevel::from_code(8), Some(BatteryLevel::Full));
    assert_eq!(
        BatteryTechnology::from_code(1),
        Some(BatteryTechnology::LithiumIon)
    );
    assert_eq!(BatteryTechnology::from_code(7), None);
}

#[test]
fn accuracy_codes() {
    assert_eq!(Accuracy::from_code(5), Accuracy::Exact);
    assert_eq!(Accuracy::from_code(0), Accuracy::Unset);
    assert_eq!(Accuracy::from_code(99), Accuracy::Unset);
    assert_eq!(Accuracy::Street.level(), 4);
}

#[test]
fn open_options_defaults_and_setters() {
    let o = OpenOptions::default();
    assert!(o.accept_label.is_none());
    assert!(o.modal);
    assert!(!o.multiple);
    assert!(!o.directory);
    assert!(o.current_folder.is_none());
    let o = o
        .accept_label("Pick".to_owned())
        .multiple(true)
        .directory(true)
        .modal(false)
        .current_folder("/home".to_owned());
    assert_eq!(o.accept_label.as_deref(), Some("Pick"));
    assert!(o.multiple && o.directory && !o.modal);
    assert_eq!(o.current_folder.as_deref(), Some("/home"));
}

#[test]
fn save_options_defaults_and_setters() {
    let s = SaveOptions::default();
    assert!(s.accept_label.is_none() && s.modal && !s.multiple);
    assert!(s.current_name.is_none() && s.current_folder.is_none() && s.current_file.is_none());
    let s = s.current_name("file.txt".to_owned()).current_file("/old.txt".to_owned());
    assert_eq!(s.current_name.as_deref(), Some("file.txt"));
    assert_eq!(s.current_file.as_deref(), Some("/old.txt"));
}

#[test]
fn response_reads_fields() {
    let resp = Response::try_from(&vec![
        (
            "uris".to_owned(),
            WireValue::Array(vec![
                WireValue::Str("file:///a".to_owned()),
                WireValue::U8(3),
                WireValue::Str("file:///b".to_owned()),
            ]),
        ),
        (
            "choices".to_owned(),
            WireValue::Array(vec![
                WireValue::Structure(vec![
                    WireValue::Str("combo".to_owned()),
                    WireValue::Str("picked".to_owned()),
                ]),
                WireValue::Structure(vec![WireValue::Str("alone".to_owned())]),
                WireValue::U8(1),
            ]),
        ),
        ("writable".to_owned(), WireValue::Bool(true)),
        ("unexpected".to_owned(), WireValue::Other),
    ])
    .unwrap();
    assert_eq!(resp.uris, vec!["file:///a".to_owned(), "file:///b".to_owned()]);
    assert_eq!(resp.choices, vec![("combo".to_owned(), "picked".to_owned())]);
    assert!(resp.writable);
}

#[test]
fn response_rejects_non_array_fields() {
    let bad_uris = Response::try_from(&vec![("uris".to_owned(), WireValue::Bool(true))]);
    assert_eq!(bad_uris.unwrap_err(), "uris propert is not an array".to_owned());
    let bad_choices = Response::try_from(&vec![("choices".to_owned(), WireValue::U8(1))]);
    assert_eq!(
        bad_choices.unwrap_err(),
        "choices property is not an array".to_owned()
    );
}

#[test]
fn text_helpers() {
    assert!(matches_keyword("  PlAyInG ", "playing"));
    assert!(!matches_keyword("playingx", "playing"));
    assert!(starts_with("org.mpris.MediaPlayer2.vlc", "org.mpris.MediaPlayer2."));
    assert!(!starts_with("org.mpris", "org.mpris.MediaPlayer2."));
    assert!(contains("a.org.mpris.MediaPlayer2.x", "org.mpris.MediaPlayer2."));
    assert!(!contains("org.other", "org.mpris.MediaPlayer2."));
    assert!(str_eq("abc", "abc"));
    assert!(!str_eq("abc", "abd"));
}

#[test]
fn decimal_parsing() {
    assert_eq!(parse_i64("120000000"), Some(120_000_000));
    assert_eq!(parse_i64("+42"), Some(42));
    assert_eq!(parse_i64("-42"), Some(-42));
    assert_eq!(parse_i64("-9223372036854775808"), Some(i64::MIN));
    assert_eq!(parse_i64("9223372036854775807"), Some(i64::MAX));
    assert_eq!(parse_i64("9223372036854775808"), None);
    assert_eq!(parse_i64("-9223372036854775809"), None);
    assert_eq!(parse_i64("99999999999999999999999"), None);
    assert_eq!(parse_i64(""), None);
    assert_eq!(parse_i64("+"), None);
    assert_eq!(parse_i64("1 2"), None);
    assert_eq!(parse_i64("12a"), None);
}

#[test]
fn settings_split_and_rebuild() {
    let profile = vec![
        (
            "connection".to_owned(),
            vec![("id".to_owned(), WireValue::Str("home".to_owned()))],
        ),
        (
            "802-11-wireless".to_owned(),
            vec![("hidden".to_owned(), WireValue::Bool(false))],
        ),
        (
            "ipv4".to_owned(),
            vec![("method".to_owned(), WireValue::Str("auto".to_owned()))],
        ),
    ];
    let settings = Settings::new(profile);
    assert!(settings.connection.is_some());
    assert!(settings.wifi.is_some());
    assert!(settings.ipv4.is_some());
    assert!(settings.ethernet.is_none());
    assert!(settings.bluetooth.is_none());
    assert!(settings.ipv6.is_none());
    assert!(settings.proxy.is_none());
    let rebuilt = settings.build();
    assert_eq!(rebuilt.len(), 3);
    assert_eq!(rebuilt[0].0, "connection");
    assert_eq!(rebuilt[0].1[0].0, "id");
    assert_eq!(rebuilt[1].0, "802-11-wireless");
    assert_eq!(rebuilt[2].0, "ipv4");

    let secrets = Secrets::new(Ok(vec![(
        "802-11-wireless-security".to_owned(),
        vec![("psk".to_owned(), WireValue::Str("SECRET-REDACTED".to_owned()))],
    )]));
    assert!(secrets.wifi.is_some());
    assert_eq!(secrets.wifi.unwrap().build()[0].0, "psk");
    let failed = Secrets::new(Err(BusFault::Other("denied".to_owned())));
    assert!(failed.wifi.is_none());
    let absent = Secrets::new(Ok(vec![]));
    assert!(absent.wifi.is_none());
}
