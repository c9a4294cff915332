use vstd::prelude::*;

use crate::address::{AddressSet, IpAddress};
use crate::inventory::{
    inventory_addresses, inventory_rejected, parse_sdc_nics, unaddressed_count, NicRecord, NicScan,
};

verus! {

/// A coordination-service server.
#[derive(Debug)]
pub struct ZookeeperServer {
    pub host: String,
    pub port: u32,
}

/// Where the coordination service is, and how long a session may stay silent.
#[derive(Debug)]
pub struct ZookeeperConfig {
    pub servers: Vec<ZookeeperServer>,
    pub timeout: u64,
}

/// The daemon's identity and its policy on the addresses of its host.
#[derive(Debug)]
pub struct Config {
    name: String,
    trusted_ip: IpAddress,
    admin_ips: Option<AddressSet>,
    manta_ips: Option<AddressSet>,
    untrusted_ips: Option<AddressSet>,
    zookeeper: ZookeeperConfig,
}

/// The members of an optional set; none where it is absent.
pub open spec fn members(s: Option<Set<IpAddress>>) -> Set<IpAddress> {
    match s {
        Some(m) => m,
        None => Set::empty(),
    }
}

pub open spec fn opt_view(s: Option<AddressSet>) -> Option<Set<IpAddress>> {
    match s {
        Some(m) => Some(m@),
        None => None,
    }
}

pub open spec fn opt_wf(s: Option<AddressSet>) -> bool {
    match s {
        Some(m) => m.wf(),
        None => true,
    }
}

/// What a `Config` holds, with each address set as a mathematical set.
pub struct ConfigView {
    pub name: Seq<char>,
    pub trusted_ip: IpAddress,
    pub admin_ips: Option<Set<IpAddress>>,
    pub manta_ips: Option<Set<IpAddress>>,
    pub untrusted_ips: Option<Set<IpAddress>>,
    pub zookeeper: ZookeeperConfig,
}

impl ConfigView {
    /// The addresses that the configuration already accounts for.
    pub open spec fn known(self) -> Set<IpAddress> {
        members(self.manta_ips).union(members(self.admin_ips)).insert(self.trusted_ip)
    }

    /// The addresses of `inventory` that the configuration does not account for.
    pub open spec fn unaccounted(self, inventory: Set<IpAddress>) -> Set<IpAddress> {
        inventory.difference(self.known())
    }

    /// Untrusted addresses are already there, given or computed.
    pub open spec fn has_untrusted(self) -> bool {
        members(self.untrusted_ips) != Set::<IpAddress>::empty()
    }

    /// The configuration after classifying the addresses of `inventory`:
    /// unchanged where it has untrusted addresses; else with the unaccounted
    /// addresses as its untrusted ones, absent where there are none.
    pub open spec fn classified(self, inventory: Set<IpAddress>) -> ConfigView {
        if self.has_untrusted() {
            self
        } else {
            let u = self.unaccounted(inventory);
            ConfigView {
                untrusted_ips: if u == Set::<IpAddress>::empty() {
                    None
                } else {
                    Some(u)
                },
                ..self
            }
        }
    }
}

impl View for Config {
    type V = ConfigView;

    closed spec fn view(&self) -> ConfigView {
        ConfigView {
            name: self.name@,
            trusted_ip: self.trusted_ip,
            admin_ips: opt_view(self.admin_ips),
            manta_ips: opt_view(self.manta_ips),
            untrusted_ips: opt_view(self.untrusted_ips),
            zookeeper: self.zookeeper,
        }
    }
}

impl Config {
    /// Each address set is well formed.
    pub closed spec fn wf(&self) -> bool {
        &&& opt_wf(self.admin_ips)
        &&& opt_wf(self.manta_ips)
        &&& opt_wf(self.untrusted_ips)
    }

    pub fn new(
        name: String,
        trusted_ip: IpAddress,
        admin_ips: Option<AddressSet>,
        manta_ips: Option<AddressSet>,
        untrusted_ips: Option<AddressSet>,
        zookeeper: ZookeeperConfig,
    ) -> (r: Config)
        requires
            opt_wf(admin_ips),
            opt_wf(manta_ips),
            opt_wf(untrusted_ips),
        ensures
            r.wf(),
            r@ == (ConfigView {
                name: name@,
                trusted_ip,
                admin_ips: opt_view(admin_ips),
                manta_ips: opt_view(manta_ips),
                untrusted_ips: opt_view(untrusted_ips),
                zookeeper,
            }),
    {
        Config { name, trusted_ip, admin_ips, manta_ips, untrusted_ips, zookeeper }
    }

    /// Whether the untrusted addresses are still to be computed: there are
    /// none yet, given or computed.
    pub fn needs_inventory(&self) -> (r: bool)
        ensures
            r == !self@.has_untrusted(),
    {
        match &self.untrusted_ips {
            Some(s) => {
                let empty = s.is_empty();
                proof {
                    assert(members(self@.untrusted_ips) == s@);
                }
                empty
            },
            None => true,
        }
    }

    /// Sets the untrusted addresses to those of `sdc_ips` that are neither
    /// service nor admin addresses nor the trusted one, absent where there
    /// are none. Untrusted addresses that are already there are kept as
    /// they are.
    pub fn add_untrusted_ips(&mut self, sdc_ips: &AddressSet)
        requires
            old(self).wf(),
            sdc_ips.wf(),
        ensures
            final(self).wf(),
            final(self)@ == old(self)@.classified(sdc_ips@),
    {
        if !self.needs_inventory() {
            return;
        }
        let mut ips = match &self.manta_ips {
            Some(manta_ips) => sdc_ips.difference(manta_ips),
            None => sdc_ips.difference(&AddressSet::new()),
        };
        if let Some(admin_ips) = &self.admin_ips {
            ips = ips.difference(admin_ips);
        }
        ips.remove(&self.trusted_ip);
        let ghost u = old(self)@.unaccounted(sdc_ips@);
        assert(ips@ =~= u);
        if ips.is_empty() {
            self.untrusted_ips = None;
        } else {
            self.untrusted_ips = Some(ips);
        }
        assert(self@ == old(self)@.classified(sdc_ips@));
    }

    /// Classifies the addresses of the interface inventory `nics` as
    /// `add_untrusted_ips` does, and hands back what the inventory yielded.
    pub fn populate_untrusted_ips(&mut self, nics: &Vec<NicRecord>) -> (r: NicScan)
        requires
            old(self).wf(),
        ensures
            final(self).wf(),
            final(self)@ == old(self)@.classified(inventory_addresses(nics@)),
            r.addresses.wf(),
            r.addresses@ == inventory_addresses(nics@),
            r.rejected@ == inventory_rejected(nics@),
            r.unaddressed == unaddressed_count(nics@),
    {
        let scan = parse_sdc_nics(nics);
        self.add_untrusted_ips(&scan.addresses);
        scan
    }

    /// The untrusted addresses.
    pub fn get_untrusted_ips(&self) -> (r: &Option<AddressSet>)
        requires
            self.wf(),
        ensures
            opt_view(*r) == self@.untrusted_ips,
            opt_wf(*r),
    {
        &self.untrusted_ips
    }

    /// The service-network addresses.
    pub fn get_manta_ips(&self) -> (r: &Option<AddressSet>)
        requires
            self.wf(),
        ensures
            opt_view(*r) == self@.manta_ips,
            opt_wf(*r),
    {
        &self.manta_ips
    }

    /// The admin-network addresses.
    pub fn get_admin_ips(&self) -> (r: &Option<AddressSet>)
        requires
            self.wf(),
        ensures
            opt_view(*r) == self@.admin_ips,
            opt_wf(*r),
    {
        &self.admin_ips
    }

    /// The coordination-service settings.
    pub fn get_zookeeper(&self) -> (r: &ZookeeperConfig)
        ensures
            *r == self@.zookeeper,
    {
        &self.zookeeper
    }
}

} // verus!
