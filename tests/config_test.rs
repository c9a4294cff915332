use std::collections::HashSet;

use muppet::address::{AddressSet, IpAddress};
use muppet::config::{Config, ZookeeperConfig, ZookeeperServer};
use muppet::inventory::{host_part, parse_sdc_nics, AddressEntry, NicRecord};

fn ips_to_set(ips: Vec<IpAddress>) -> AddressSet {
    AddressSet::from_vec(ips)
}

fn members(s: &AddressSet) -> HashSet<IpAddress> {
    s.to_vec().into_iter().collect()
}

fn zookeeper() -> ZookeeperConfig {
    ZookeeperConfig {
        servers: vec![ZookeeperServer {
            host: String::from("zkhost"),
            port: 9000,
        }],
        timeout: 1000,
    }
}

fn localhost() -> IpAddress {
    IpAddress::v4(127, 0, 0, 1)
}

fn admin_ip() -> IpAddress {
    IpAddress::v4(192, 168, 1, 171)
}

fn manta_ip() -> IpAddress {
    IpAddress::v4(192, 168, 118, 13)
}

fn untrusted_ip1() -> IpAddress {
    IpAddress::v4(10, 77, 77, 44)
}

fn untrusted_ip2() -> IpAddress {
    IpAddress::v4(10, 77, 77, 55)
}

fn scenario_config() -> Config {
    Config::new(
        String::from("test"),
        localhost(),
        Some(ips_to_set(vec![admin_ip()])),
        Some(ips_to_set(vec![manta_ip()])),
        None,
        zookeeper(),
    )
}

fn untrusted_members(config: &Config) -> HashSet<IpAddress> {
    match config.get_untrusted_ips() {
        None => HashSet::new(),
        Some(ips) => members(ips),
    }
}

/// An entry of an address list, read as the address given.
fn entry(text: &str, address: IpAddress) -> AddressEntry {
    assert_eq!(host_part(text), text.split('/').next().unwrap());
    AddressEntry::Valid(address)
}

/// A mix of records with a list and a single address, only a single
/// address, only a list, and no address at all.
fn mix_sdc_nics() -> Vec<NicRecord> {
    vec![
        NicRecord::from_fields(
            Some(vec![entry("192.168.1.171/24", IpAddress::v4(192, 168, 1, 171))]),
            Some(IpAddress::v4(192, 168, 1, 171)),
        ),
        NicRecord::from_fields(None, Some(IpAddress::v4(192, 168, 118, 13))),
        NicRecord::from_fields(
            Some(vec![entry("10.77.77.44/24", IpAddress::v4(10, 77, 77, 44))]),
            None,
        ),
        NicRecord::from_fields(None, None),
    ]
}

/// a config with untrusted IPs doesn't load more
#[test]
fn config_with_untrusted() {
    let mut config = Config::new(
        String::from("test"),
        localhost(),
        Some(ips_to_set(vec![admin_ip()])),
        Some(ips_to_set(vec![manta_ip()])),
        Some(ips_to_set(vec![IpAddress::v4(10, 99, 99, 1)])),
        zookeeper(),
    );

    let untrusted = untrusted_members(&config);

    assert!(!config.needs_inventory());
    config.populate_untrusted_ips(&mix_sdc_nics());

    let new_untrusted = untrusted_members(&config);

    assert_eq!(untrusted.len(), 1, "expected a single configured ip");
    assert_eq!(untrusted, new_untrusted);
}

/// create a config, and some sdc nic ips, and verify that only those
/// ips that are not explictly configured in some other capacity, get
/// added as untrusted ips
#[test]
fn only_unconfigured_are_untrusted() {
    let mut config = scenario_config();
    let sdc_ips = ips_to_set(vec![
        admin_ip(),
        manta_ip(),
        localhost(),
        untrusted_ip1(),
        untrusted_ip2(),
    ]);

    config.add_untrusted_ips(&sdc_ips);

    let expected: HashSet<IpAddress> = vec![untrusted_ip1(), untrusted_ip2()].into_iter().collect();

    if let Some(configured_untrusted) = config.get_untrusted_ips() {
        assert_eq!(expected, members(configured_untrusted));
    } else {
        assert!(false, "Expected some untrusted ips in config");
    }
}

/// Load a config, load untrusted ips.
#[test]
fn load_conf_and_untrusted() {
    let mut config = Config::new(
        String::from("lab.example.com"),
        localhost(),
        Some(ips_to_set(vec![IpAddress::v4(10, 99, 99, 7)])),
        Some(ips_to_set(vec![IpAddress::v4(172, 27, 10, 7)])),
        None,
        zookeeper(),
    );

    let expected: HashSet<IpAddress> = vec![
        IpAddress::v4(192, 168, 1, 171),
        IpAddress::v4(192, 168, 118, 13),
        IpAddress::v4(10, 77, 77, 44),
    ]
    .into_iter()
    .collect();

    let scan = parse_sdc_nics(&mix_sdc_nics());
    config.add_untrusted_ips(&scan.addresses);

    let untrusted_ips = config.get_untrusted_ips();
    assert!(untrusted_ips.is_some());

    match untrusted_ips {
        Some(set) => {
            assert_eq!(members(set), expected);
        }
        None => (),
    }

    if let Some(manta_ips) = config.get_manta_ips() {
        assert_eq!(manta_ips.len(), 1, "Expected a single manta ip");
    } else {
        assert!(false, "Expected a manta ip in config")
    }

    if let Some(admin_ips) = config.get_admin_ips() {
        assert_eq!(admin_ips.len(), 1, "Expected a single admin ip");
    } else {
        assert!(false, "Expected a admin ip in config")
    }
}

#[test]
fn classified_excludes_trusted_admin_and_service() {
    let mut config = scenario_config();
    config.populate_untrusted_ips(&mix_sdc_nics());
    let untrusted = untrusted_members(&config);
    assert!(!untrusted.contains(&localhost()));
    assert!(!untrusted.contains(&admin_ip()));
    assert!(!untrusted.contains(&manta_ip()));
    let expected: HashSet<IpAddress> = vec![untrusted_ip1()].into_iter().collect();
    assert_eq!(untrusted, expected);
}

#[test]
fn second_classification_changes_nothing() {
    let mut config = scenario_config();
    config.add_untrusted_ips(&ips_to_set(vec![admin_ip(), untrusted_ip1()]));
    let first = untrusted_members(&config);
    assert_eq!(first, vec![untrusted_ip1()].into_iter().collect());

    config.add_untrusted_ips(&ips_to_set(vec![untrusted_ip2()]));
    assert_eq!(untrusted_members(&config), first);
    config.add_untrusted_ips(&ips_to_set(vec![admin_ip(), untrusted_ip1()]));
    assert_eq!(untrusted_members(&config), first);
}

#[test]
fn empty_result_is_absent() {
    let mut config = scenario_config();
    config.add_untrusted_ips(&ips_to_set(vec![admin_ip(), manta_ip(), localhost()]));
    assert!(config.get_untrusted_ips().is_none());
    assert!(config.needs_inventory());

    let mut bare = scenario_config();
    bare.add_untrusted_ips(&AddressSet::new());
    assert!(bare.get_untrusted_ips().is_none());
}

#[test]
fn configured_empty_untrusted_is_computed() {
    let mut config = Config::new(
        String::from("test"),
        localhost(),
        None,
        None,
        Some(AddressSet::new()),
        zookeeper(),
    );
    assert!(config.needs_inventory());
    config.add_untrusted_ips(&ips_to_set(vec![localhost(), untrusted_ip2()]));
    assert_eq!(
        untrusted_members(&config),
        vec![untrusted_ip2()].into_iter().collect()
    );
}

#[test]
fn legacy_record_yields_its_address() {
    let scan = parse_sdc_nics(&vec![NicRecord::from_fields(None, Some(untrusted_ip1()))]);
    assert_eq!(members(&scan.addresses), vec![untrusted_ip1()].into_iter().collect());
    assert!(scan.rejected.is_empty());
    assert_eq!(scan.unaddressed, 0);
}

#[test]
fn list_record_yields_host_part() {
    assert_eq!(host_part("10.0.0.10/24"), "10.0.0.10");
    let scan = parse_sdc_nics(&vec![NicRecord::from_fields(
        Some(vec![entry("10.0.0.10/24", IpAddress::v4(10, 0, 0, 10))]),
        None,
    )]);
    assert_eq!(
        members(&scan.addresses),
        vec![IpAddress::v4(10, 0, 0, 10)].into_iter().collect()
    );
}

#[test]
fn record_without_address_yields_nothing() {
    let record = NicRecord::from_fields(None, None);
    assert!(matches!(record, NicRecord::Unaddressed));
    let scan = parse_sdc_nics(&vec![record]);
    assert_eq!(scan.addresses.len(), 0);
    assert!(scan.rejected.is_empty());
    assert_eq!(scan.unaddressed, 1);
}

#[test]
fn list_wins_over_single_address() {
    let record = NicRecord::from_fields(
        Some(vec![entry("10.0.0.10/24", IpAddress::v4(10, 0, 0, 10))]),
        Some(untrusted_ip1()),
    );
    let scan = parse_sdc_nics(&vec![record]);
    assert_eq!(
        members(&scan.addresses),
        vec![IpAddress::v4(10, 0, 0, 10)].into_iter().collect()
    );
}

#[test]
fn malformed_entry_is_passed_over() {
    let record = NicRecord::from_fields(
        Some(vec![
            entry("10.0.0.10/24", IpAddress::v4(10, 0, 0, 10)),
            AddressEntry::Invalid(String::from("10.0.0.300/24")),
            entry("10.0.0.11/24", IpAddress::v4(10, 0, 0, 11)),
        ]),
        None,
    );
    let scan = parse_sdc_nics(&vec![record, NicRecord::from_fields(None, None)]);
    assert_eq!(
        members(&scan.addresses),
        vec![IpAddress::v4(10, 0, 0, 10), IpAddress::v4(10, 0, 0, 11)]
            .into_iter()
            .collect()
    );
    assert_eq!(scan.rejected, vec![String::from("10.0.0.300/24")]);
    assert_eq!(scan.unaddressed, 1);
}

#[test]
fn repeated_addresses_are_held_once() {
    let scan = parse_sdc_nics(&mix_sdc_nics());
    assert_eq!(scan.addresses.len(), 3);
    assert_eq!(scan.unaddressed, 1);
    let doubled = ips_to_set(vec![admin_ip(), admin_ip(), manta_ip()]);
    assert_eq!(doubled.len(), 2);
    assert_eq!(doubled.to_vec().len(), 2);
}

#[test]
fn host_part_edges() {
    assert_eq!(host_part("192.168.1.171"), "192.168.1.171");
    assert_eq!(host_part("/24"), "");
    assert_eq!(host_part(""), "");
    assert_eq!(host_part("fe80::1/64"), "fe80::1");
    assert_eq!(host_part("10.0.0.1/24/8"), "10.0.0.1");
}

#[test]
fn v4_packs_octets() {
    assert_eq!(IpAddress::v4(192, 168, 1, 171), IpAddress::V4(0xC0A8_01AB));
    assert_eq!(IpAddress::v4(0, 0, 0, 0), IpAddress::V4(0));
    assert_eq!(IpAddress::v4(255, 255, 255, 255), IpAddress::V4(u32::MAX));
    assert_ne!(IpAddress::V4(1), IpAddress::V6(1));
}

#[test]
fn address_set_operations() {
    let mut s = ips_to_set(vec![admin_ip(), manta_ip(), localhost()]);
    assert!(s.contains(&manta_ip()));
    s.remove(&manta_ip());
    assert!(!s.contains(&manta_ip()));
    assert_eq!(s.len(), 2);
    s.remove(&manta_ip());
    assert_eq!(s.len(), 2);
    s.insert(localhost());
    assert_eq!(s.len(), 2);
    let d = s.difference(&ips_to_set(vec![localhost(), untrusted_ip1()]));
    assert_eq!(members(&d), vec![admin_ip()].into_iter().collect());
    assert!(AddressSet::new().is_empty());
    assert!(!d.is_empty());
}

#[test]
fn zookeeper_settings_are_kept() {
    let mut config = scenario_config();
    config.add_untrusted_ips(&ips_to_set(vec![untrusted_ip1()]));
    let zk = config.get_zookeeper();
    assert_eq!(zk.timeout, 1000);
    assert_eq!(zk.servers.len(), 1);
    assert_eq!(zk.servers[0].host, "zkhost");
    assert_eq!(zk.servers[0].port, 9000);
}
