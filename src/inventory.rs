use vstd::prelude::*;

use crate::address::{AddressSet, IpAddress};

verus! {

broadcast use vstd::seq_lib::lemma_seq_contains_after_push;

/// One entry of an interface's address list, after its host part has been
/// read as an address: either that address, or the entry's text where the
/// host part is no address.
#[derive(Debug)]
pub enum AddressEntry {
    Valid(IpAddress),
    Invalid(String),
}

/// What one network interface reports of its addressing.
#[derive(Debug)]
pub enum NicRecord {
    /// The current shape: a list of `address/prefix` entries.
    Multi(Vec<AddressEntry>),
    /// The legacy shape: a single address.
    Single(IpAddress),
    /// No address at all.
    Unaddressed,
}

impl NicRecord {
    /// The record for an interface that reports the address list `ips`
    /// and the single address `ip`, either of them possibly absent; the
    /// list wins where both are there.
    pub fn from_fields(ips: Option<Vec<AddressEntry>>, ip: Option<IpAddress>) -> (r: NicRecord)
        ensures
            ips is Some ==> r == NicRecord::Multi(ips->Some_0),
            ips is None && ip is Some ==> r == NicRecord::Single(ip->Some_0),
            ips is None && ip is None ==> r is Unaddressed,
    {
        match ips {
            Some(entries) => NicRecord::Multi(entries),
            None => match ip {
                Some(a) => NicRecord::Single(a),
                None => NicRecord::Unaddressed,
            },
        }
    }
}

/// The addresses that one record contributes.
pub open spec fn record_addresses(r: NicRecord) -> Set<IpAddress> {
    match r {
        NicRecord::Multi(entries) => Set::new(
            |a: IpAddress| entries@.contains(AddressEntry::Valid(a)),
        ),
        NicRecord::Single(a) => set![a],
        NicRecord::Unaddressed => Set::empty(),
    }
}

/// The addresses that a list of records contributes.
pub open spec fn inventory_addresses(rs: Seq<NicRecord>) -> Set<IpAddress> {
    Set::new(|a: IpAddress| exists|i: int| 0 <= i < rs.len() && record_addresses(rs[i]).contains(a))
}

/// The entries of a list that are no address, in order.
pub open spec fn entries_rejected(es: Seq<AddressEntry>) -> Seq<String>
    decreases es.len(),
{
    if es.len() == 0 {
        Seq::empty()
    } else {
        let rest = entries_rejected(es.drop_last());
        match es.last() {
            AddressEntry::Invalid(text) => rest.push(text),
            AddressEntry::Valid(_) => rest,
        }
    }
}

pub open spec fn record_rejected(r: NicRecord) -> Seq<String> {
    match r {
        NicRecord::Multi(entries) => entries_rejected(entries@),
        _ => Seq::empty(),
    }
}

/// The entries of all records that are no address, record by record.
pub open spec fn inventory_rejected(rs: Seq<NicRecord>) -> Seq<String>
    decreases rs.len(),
{
    if rs.len() == 0 {
        Seq::empty()
    } else {
        inventory_rejected(rs.drop_last()) + record_rejected(rs.last())
    }
}

/// How many records report no address.
pub open spec fn unaddressed_count(rs: Seq<NicRecord>) -> nat
    decreases rs.len(),
{
    if rs.len() == 0 {
        0
    } else {
        unaddressed_count(rs.drop_last()) + if rs.last() is Unaddressed {
            1nat
        } else {
            0nat
        }
    }
}

/// What an inventory of records yields: its addresses, each once, and what
/// was passed over on the way, for diagnostics.
#[derive(Debug)]
pub struct NicScan {
    pub addresses: AddressSet,
    /// Entries of address lists whose host part is no address.
    pub rejected: Vec<String>,
    /// The number of records with no address.
    pub unaddressed: usize,
}

/// The host part of an `address/prefix` entry: all that comes before the
/// first `/`, or the whole entry where it has none.
pub fn host_part(entry: &str) -> (r: String)
    ensures
        r@.len() <= entry@.len(),
        r@ == entry@.subrange(0, r@.len() as int),
        !r@.contains('/'),
        r@.len() < entry@.len() ==> entry@[r@.len() as int] == '/',
{
    let n = entry.unicode_len();
    let mut k: usize = 0;
    while k < n
        invariant
            n == entry@.len(),
            k <= n,
            forall|j: int| 0 <= j < k ==> entry@[j] != '/',
        ensures
            k <= n,
            k == n || entry@[k as int] == '/',
            forall|j: int| 0 <= j < k ==> entry@[j] != '/',
        decreases n - k,
    {
        if entry.get_char(k) == '/' {
            break;
        }
        k = k + 1;
    }
    let r = String::from_str(entry.substring_char(0, k));
    assert(!r@.contains('/')) by {
        if r@.contains('/') {
            let j = choose|j: int| 0 <= j < r@.len() && r@[j] == '/';
            assert(entry@[j] == '/');
        }
    }
    r
}

/// Adds what `record` yields to `addresses` and `rejected`.
fn scan_record(record: &NicRecord, addresses: &mut AddressSet, rejected: &mut Vec<String>)
    requires
        old(addresses).wf(),
    ensures
        final(addresses).wf(),
        final(addresses)@ == old(addresses)@.union(record_addresses(*record)),
        final(rejected)@ == old(rejected)@ + record_rejected(*record),
{
    match record {
        NicRecord::Multi(entries) => {
            let mut i: usize = 0;
            while i < entries.len()
                invariant
                    i <= entries.len(),
                    addresses.wf(),
                    addresses@ == old(addresses)@.union(
                        Set::new(|a: IpAddress| entries@.take(i as int).contains(AddressEntry::Valid(a))),
                    ),
                    rejected@ == old(rejected)@ + entries_rejected(entries@.take(i as int)),
                decreases entries.len() - i,
            {
                let ghost before = entries@.take(i as int);
                assert(entries@.take(i + 1) == before.push(entries@[i as int]));
                assert(entries@.take(i + 1).drop_last() == before);
                match &entries[i] {
                    AddressEntry::Valid(a) => {
                        addresses.insert(*a);
                    },
                    AddressEntry::Invalid(text) => {
                        rejected.push(text.clone());
                    },
                }
                i = i + 1;
                assert(addresses@ =~= old(addresses)@.union(
                    Set::new(|a: IpAddress| entries@.take(i as int).contains(AddressEntry::Valid(a))),
                ));
                assert(rejected@ =~= old(rejected)@ + entries_rejected(entries@.take(i as int)));
            }
            assert(entries@.take(entries.len() as int) == entries@);
            assert(addresses@ =~= old(addresses)@.union(record_addresses(*record)));
        },
        NicRecord::Single(a) => {
            addresses.insert(*a);
            assert(addresses@ =~= old(addresses)@.union(record_addresses(*record)));
            assert(rejected@ =~= old(rejected)@ + record_rejected(*record));
        },
        NicRecord::Unaddressed => {
            assert(addresses@ =~= old(addresses)@.union(record_addresses(*record)));
            assert(rejected@ =~= old(rejected)@ + record_rejected(*record));
        },
    }
}

/// The addresses of an interface inventory, each once: of a record with an
/// address list, the entries that are addresses; of a record with a single
/// address, that address. Entries that are no address, and records with no
/// address, are passed over and reported.
pub fn parse_sdc_nics(nics: &Vec<NicRecord>) -> (r: NicScan)
    ensures
        r.addresses.wf(),
        r.addresses@ == inventory_addresses(nics@),
        r.rejected@ == inventory_rejected(nics@),
        r.unaddressed == unaddressed_count(nics@),
{
    let mut addresses = AddressSet::new();
    let mut rejected: Vec<String> = Vec::new();
    let mut unaddressed: usize = 0;
    let mut i: usize = 0;
    while i < nics.len()
        invariant
            i <= nics.len(),
            addresses.wf(),
            addresses@ == inventory_addresses(nics@.take(i as int)),
            rejected@ == inventory_rejected(nics@.take(i as int)),
            unaddressed == unaddressed_count(nics@.take(i as int)),
            unaddressed <= i,
        decreases nics.len() - i,
    {
        let ghost before = nics@.take(i as int);
        assert(nics@.take(i + 1) == before.push(nics@[i as int]));
        assert(nics@.take(i + 1).drop_last() == before);
        scan_record(&nics[i], &mut addresses, &mut rejected);
        if let NicRecord::Unaddressed = &nics[i] {
            unaddressed = unaddressed + 1;
        }
        i = i + 1;
        assert(addresses@ =~= inventory_addresses(nics@.take(i as int))) by {
            let now = nics@.take(i as int);
            assert forall|a: IpAddress| #[trigger] addresses@.contains(a) implies inventory_addresses(
                now,
            ).contains(a) by {
                if inventory_addresses(before).contains(a) {
                    let j = choose|j: int|
                        0 <= j < before.len() && record_addresses(before[j]).contains(a);
                    assert(now[j] == before[j]);
                } else {
                    assert(record_addresses(now[i - 1]).contains(a));
                }
            }
            assert forall|a: IpAddress| #[trigger]
                inventory_addresses(now).contains(a) implies addresses@.contains(a) by {
                let j = choose|j: int| 0 <= j < now.len() && record_addresses(now[j]).contains(a);
                if j < i - 1 {
                    assert(before[j] == now[j]);
                    assert(inventory_addresses(before).contains(a));
                }
            }
        }
    }
    assert(nics@.take(nics.len() as int) == nics@);
    NicScan { addresses, rejected, unaddressed }
}

} // verus!
