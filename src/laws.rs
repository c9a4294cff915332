use vstd::prelude::*;

use crate::address::IpAddress;
use crate::config::{members, ConfigView};
use crate::inventory::{
    entries_rejected, inventory_addresses, inventory_rejected, record_addresses,
    unaddressed_count, AddressEntry, NicRecord,
};

verus! {

broadcast use vstd::seq_lib::lemma_seq_contains_after_push;

/// After classification no untrusted address is the trusted address, an
/// admin address or a service address, for every configuration whose
/// untrusted addresses, if it has any, are already none of these (which
/// holds where it has none).
pub proof fn lemma_classified_excludes_known(c: ConfigView, inventory: Set<IpAddress>)
    requires
        members(c.untrusted_ips).disjoint(c.known()),
    ensures
        !members(c.classified(inventory).untrusted_ips).contains(c.trusted_ip),
        members(c.admin_ips).disjoint(members(c.classified(inventory).untrusted_ips)),
        members(c.manta_ips).disjoint(members(c.classified(inventory).untrusted_ips)),
{
    let u = members(c.classified(inventory).untrusted_ips);
    assert(c.known().contains(c.trusted_ip));
    assert forall|a: IpAddress| members(c.admin_ips).contains(a) implies !u.contains(a) by {
        assert(c.known().contains(a));
    }
    assert forall|a: IpAddress| members(c.manta_ips).contains(a) implies !u.contains(a) by {
        assert(c.known().contains(a));
    }
}

/// Once a configuration has untrusted addresses, classifying again, with
/// the same inventory or another, changes nothing.
pub proof fn lemma_classify_keeps_untrusted(
    c: ConfigView,
    first: Set<IpAddress>,
    second: Set<IpAddress>,
)
    requires
        c.classified(first).has_untrusted(),
    ensures
        c.classified(first).classified(second) == c.classified(first),
        c.classified(first).classified(second).untrusted_ips == c.classified(first).untrusted_ips,
{
}

/// Classification never stores an empty set: where no address is left
/// unaccounted for, the untrusted addresses are absent, and absent and
/// empty have the same members.
pub proof fn lemma_empty_result_is_absent(c: ConfigView, inventory: Set<IpAddress>)
    requires
        !c.has_untrusted(),
    ensures
        c.classified(inventory).untrusted_ips is None <==> c.unaccounted(inventory)
            == Set::<IpAddress>::empty(),
        c.classified(inventory).untrusted_ips != Some(Set::<IpAddress>::empty()),
        members(c.classified(inventory).untrusted_ips) == c.unaccounted(inventory),
{
}

/// A single record yields: of the legacy shape, exactly its address; of
/// the list shape, exactly the entries that are addresses; with no address,
/// nothing, and it is counted as such rather than failing.
pub proof fn lemma_record_shapes(r: NicRecord)
    ensures
        inventory_addresses(seq![r]) == record_addresses(r),
        r is Single ==> inventory_addresses(seq![r]) == set![r->Single_0],
        r is Multi ==> inventory_addresses(seq![r]) == Set::new(
            |a: IpAddress| r->Multi_0@.contains(AddressEntry::Valid(a)),
        ),
        r is Unaddressed ==> inventory_addresses(seq![r]) == Set::<IpAddress>::empty()
            && inventory_rejected(seq![r]) == Seq::<String>::empty() && unaddressed_count(seq![r])
            == 1,
{
    let rs = seq![r];
    assert(rs.drop_last() == Seq::<NicRecord>::empty());
    assert(rs.last() == r);
    assert(inventory_rejected(Seq::<NicRecord>::empty()) == Seq::<String>::empty());
    assert(unaddressed_count(Seq::<NicRecord>::empty()) == 0);
    if r is Unaddressed {
        assert(inventory_rejected(rs) =~= Seq::<String>::empty());
    }
    assert(inventory_addresses(rs) =~= record_addresses(r)) by {
        assert forall|a: IpAddress| record_addresses(r).contains(a) implies inventory_addresses(
            rs,
        ).contains(a) by {
            assert(rs[0] == r);
        }
    }
}

/// An entry of an address list that is no address contributes no address
/// and is reported; every reported entry is such an entry.
pub proof fn lemma_invalid_entries_reported(es: Seq<AddressEntry>)
    ensures
        forall|t: String|
            #![trigger entries_rejected(es).contains(t)]
            entries_rejected(es).contains(t) <==> es.contains(AddressEntry::Invalid(t)),
    decreases es.len(),
{
    if es.len() > 0 {
        let rest = es.drop_last();
        lemma_invalid_entries_reported(rest);
        assert(es == rest.push(es.last()));
        assert forall|t: String| #[trigger]
            entries_rejected(es).contains(t) <==> es.contains(AddressEntry::Invalid(t)) by {
            assert(entries_rejected(rest).contains(t) <==> rest.contains(AddressEntry::Invalid(t)));
            if es.contains(AddressEntry::Invalid(t)) {
                let i = choose|i: int| 0 <= i < es.len() && es[i] == AddressEntry::Invalid(t);
                if i < es.len() - 1 {
                    assert(rest[i] == es[i]);
                }
            }
            if rest.contains(AddressEntry::Invalid(t)) {
                let i = choose|i: int| 0 <= i < rest.len() && rest[i] == AddressEntry::Invalid(t);
                assert(es[i] == rest[i]);
            }
        }
    } else {
        assert(entries_rejected(es) == Seq::<String>::empty());
    }
}

} // verus!
