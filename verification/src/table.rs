//! Unlock modes and unlock records.

use vstd::prelude::*;
use crate::addr::Address;

verus! {

/// How long a granted signing capability lasts.
#[derive(Clone, Copy, Debug)]
pub enum Unlock {
    /// Consumed by the first signing operation.
    Temp,
    /// Lasts until explicit revocation or process restart; never auto-expires.
    Perm,
    /// Lasts until `duration_ms` milliseconds past `start_ms`, checked lazily
    /// at each signing attempt.
    Timed { start_ms: u64, duration_ms: u32 },
}

/// One unlock record: the mode, and the password whose verification earned it.
#[derive(Debug)]
pub struct AccountData {
    pub unlock: Unlock,
    pub password: String,
}

/// The mathematical shape of an unlock record.
pub ghost struct UnlockRec {
    pub unlock: Unlock,
    pub password: Seq<char>,
}

/// The record an unlock table entry stands for.
pub open spec fn rec_of(d: AccountData) -> UnlockRec {
    UnlockRec { unlock: d.unlock, password: d.password@ }
}

/// The unlock table a map of entries stands for.
pub open spec fn lift_table(m: Map<Address, AccountData>) -> Map<Address, UnlockRec> {
    Map::new(|a: Address| m.dom().contains(a), |a: Address| rec_of(m[a]))
}

pub proof fn lemma_lift_table_empty()
    ensures
        lift_table(Map::empty()) == Map::<Address, UnlockRec>::empty(),
{
    assert(lift_table(Map::empty()) =~= Map::<Address, UnlockRec>::empty());
}

pub proof fn lemma_lift_table_dom(m: Map<Address, AccountData>)
    ensures
        lift_table(m).dom() == m.dom(),
{
    assert(lift_table(m).dom() =~= m.dom());
}

pub proof fn lemma_lift_table_insert(m: Map<Address, AccountData>, a: Address, d: AccountData)
    ensures
        lift_table(m.insert(a, d)) == lift_table(m).insert(a, rec_of(d)),
{
    assert(lift_table(m.insert(a, d)) =~= lift_table(m).insert(a, rec_of(d)));
}

pub proof fn lemma_lift_table_remove(m: Map<Address, AccountData>, a: Address)
    ensures
        lift_table(m.remove(a)) == lift_table(m).remove(a),
{
    assert(lift_table(m.remove(a)) =~= lift_table(m).remove(a));
}

/// A `Timed` capability is expired at `now_ms` once more than its duration
/// has passed since its start; other modes never expire by time.
pub open spec fn expired(u: Unlock, now_ms: u64) -> bool {
    match u {
        Unlock::Timed { start_ms, duration_ms } => now_ms > start_ms + duration_ms,
        _ => false,
    }
}

/// The expiry test, on machine integers.
pub fn is_expired(u: &Unlock, now_ms: u64) -> (r: bool)
    ensures
        r == expired(*u, now_ms),
{
    match u {
        Unlock::Timed { start_ms, duration_ms } => {
            now_ms > *start_ms && now_ms - *start_ms > (*duration_ms as u64)
        },
        _ => false,
    }
}

} // verus!
