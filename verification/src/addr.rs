//! Account addresses, deterministic storage-key derivation, and the fund
//! movements an operation asks the ledger substrate to perform.

use vstd::prelude::*;

verus! {

/// The address of an account on the ledger substrate: a wallet, or a
/// storage record such as a listing or an auction. An address is a plain
/// identifier; holding one confers no ownership.
#[derive(Clone, Copy, Debug, PartialEq, Eq, Structural)]
pub struct Addr {
    pub value: u128,
}

/// Namespace of listing records in derived storage keys.
pub const NS_LISTING: u8 = 1;

/// Namespace of auction records in derived storage keys.
pub const NS_AUCTION: u8 = 2;

/// Namespace of escrow vaults in derived storage keys.
pub const NS_ESCROW: u8 = 3;

/// Namespace of royalty configurations in derived storage keys.
pub const NS_ROYALTY: u8 = 4;

/// The derived address of an entity: the namespace in the high bits, the
/// entity's stable identifier in the low 64 bits.
pub open spec fn derived_address(namespace: u8, id: u64) -> Addr {
    Addr { value: (namespace * 0x1_0000_0000_0000_0000 + id) as u128 }
}

/// Derives the storage address of an entity from its namespace and the
/// stable identifier it is keyed by. The derivation is reproducible by any
/// caller who knows the same identifiers, and collision-free across
/// namespaces and identifiers (see [`lemma_derived_address_injective`]).
pub fn account_address(namespace: u8, id: u64) -> (a: Addr)
    ensures
        a == derived_address(namespace, id),
{
    Addr { value: (namespace as u128) * 0x1_0000_0000_0000_0000u128 + (id as u128) }
}

/// Law: storage-key derivation is collision-free. Two derived addresses
/// are equal only when both the namespace and the identifier agree, so a
/// derived key is a stable lookup path for exactly one entity.
pub proof fn lemma_derived_address_injective(ns1: u8, id1: u64, ns2: u8, id2: u64)
    ensures
        derived_address(ns1, id1) == derived_address(ns2, id2) ==> ns1 == ns2 && id1 == id2,
{
    if derived_address(ns1, id1) == derived_address(ns2, id2) {
        assert(ns1 * 0x1_0000_0000_0000_0000u128 + id1
            == ns2 * 0x1_0000_0000_0000_0000u128 + id2);
        assert(ns1 == ns2 && id1 == id2) by (nonlinear_arith)
            requires
                ns1 * 0x1_0000_0000_0000_0000 + id1 == ns2 * 0x1_0000_0000_0000_0000 + id2,
                0 <= id1 < 0x1_0000_0000_0000_0000,
                0 <= id2 < 0x1_0000_0000_0000_0000,
                0 <= ns1,
                0 <= ns2,
        ;
    }
}

/// One fund movement, part of the atomic unit of work an operation hands
/// back to the ledger substrate. Either the whole list of a successful
/// operation is applied, or (on error) none is.
#[derive(Clone, Copy, Debug, PartialEq, Eq, Structural)]
pub struct Transfer {
    pub from: Addr,
    pub to: Addr,
    pub amount: u64,
}

/// The total value moved by a list of transfers.
pub open spec fn sum_amounts(ts: Seq<Transfer>) -> int
    decreases ts.len(),
{
    if ts.len() == 0 {
        0
    } else {
        ts[0].amount + sum_amounts(ts.drop_first())
    }
}

/// Law: a single transfer moves exactly its amount.
pub proof fn lemma_sum_amounts_single(t: Transfer)
    ensures
        sum_amounts(seq![t]) == t.amount,
{
    assert(seq![t].drop_first() =~= Seq::<Transfer>::empty());
    assert(sum_amounts(Seq::<Transfer>::empty()) == 0);
}

/// Law: the value moved by two transfer lists run back to back is the sum
/// of the values each moves on its own.
pub proof fn lemma_sum_amounts_concat(s1: Seq<Transfer>, s2: Seq<Transfer>)
    ensures
        sum_amounts(s1 + s2) == sum_amounts(s1) + sum_amounts(s2),
    decreases s1.len(),
{
    if s1.len() == 0 {
        assert(s1 + s2 =~= s2);
    } else {
        assert((s1 + s2).drop_first() =~= s1.drop_first() + s2);
        lemma_sum_amounts_concat(s1.drop_first(), s2);
    }
}

} // verus!
