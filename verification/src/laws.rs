//! Laws of the unlock state machine, stated over the transition functions
//! that the coordinator's contracts use and proved once for all states,
//! messages and clock readings.
//!
//! All table mutations are serialized behind the caller's lock, so a run of
//! signing attempts in any order is a sequence of `sign_post` steps; the
//! run-level laws therefore cover every scheduling of concurrent callers.

use vstd::prelude::*;
use crate::addr::Address;
use crate::provider::Error;
use crate::provider::ProviderView;
use crate::provider::sign_post;
use crate::provider::sign_result;
use crate::provider::unlock_post;
use crate::provider::unlock_result;
use crate::store::Signature;
use crate::store::auth_ok;
use crate::table::Unlock;
use crate::table::UnlockRec;

verus! {

/// The state after a run of signing attempts for `a` at the given instants.
pub open spec fn run_post(v: ProviderView, a: Address, times: Seq<u64>) -> ProviderView
    decreases times.len(),
{
    if times.len() == 0 {
        v
    } else {
        run_post(sign_post(v, a, times[0]), a, times.subrange(1, times.len() as int))
    }
}

/// How many attempts of such a run return a signature.
pub open spec fn run_successes(v: ProviderView, a: Address, m: [u8; 32], times: Seq<u64>) -> nat
    decreases times.len(),
{
    if times.len() == 0 {
        0
    } else {
        (if sign_result(v, a, m, times[0]) is Ok {
            1nat
        } else {
            0nat
        }) + run_successes(sign_post(v, a, times[0]), a, m, times.subrange(1, times.len() as int))
    }
}

/// Every unlock record's password still opens its account in the store.
pub open spec fn records_open(v: ProviderView) -> bool {
    forall|a: Address| #[trigger]
        v.unlocked.dom().contains(a) ==> auth_ok(v.sstore, a, v.unlocked[a].password)
}

/// Unlock and signing steps keep every record's password verified: a record
/// is only ever created after the store accepted its password, and signing
/// only consumes or evicts records.  (Re-keying the store itself can break
/// the property; these two operations never do.)
pub proof fn lemma_records_open_preserved(
    v: ProviderView,
    a: Address,
    p: Seq<char>,
    u: Unlock,
    now_ms: u64,
)
    requires
        records_open(v),
    ensures
        records_open(unlock_post(v, a, p, u)),
        records_open(sign_post(v, a, now_ms)),
{
}

/// An unlock request is idempotent: repeating it with the same password and
/// mode moves nothing further, and reports the same outcome.
pub proof fn lemma_unlock_idempotent(pre: ProviderView, a: Address, p: Seq<char>, u: Unlock)
    ensures
        unlock_post(unlock_post(pre, a, p, u), a, p, u) == unlock_post(pre, a, p, u),
        unlock_result(unlock_post(pre, a, p, u), a, p) == unlock_result(pre, a, p),
{
    let v1 = unlock_post(pre, a, p, u);
    if auth_ok(pre.sstore, a, p) && !(pre.unlocked.dom().contains(a)
        && pre.unlocked[a].unlock is Perm) && !(u is Perm) {
        let rec = UnlockRec { unlock: u, password: p };
        assert(v1.unlocked.insert(a, rec) =~= pre.unlocked.insert(a, rec));
    }
}

/// Without an unlock record, every signing attempt fails and changes
/// nothing, however many are made and whenever they run.
pub proof fn lemma_locked_stays_locked(v: ProviderView, a: Address, m: [u8; 32], times: Seq<u64>)
    requires
        !v.unlocked.dom().contains(a),
    ensures
        run_post(v, a, times) == v,
        run_successes(v, a, m, times) == 0,
    decreases times.len(),
{
    if times.len() > 0 {
        lemma_locked_stays_locked(v, a, m, times.subrange(1, times.len() as int));
    }
}

/// A temporary unlock with the account's password grants exactly one
/// signature: the first attempt succeeds and consumes the record, and the
/// next attempt, however soon, fails with `NotUnlocked`.
pub proof fn lemma_temporary_unlock_signs_once(
    pre: ProviderView,
    a: Address,
    p: Seq<char>,
    m1: [u8; 32],
    now1: u64,
    m2: [u8; 32],
    now2: u64,
)
    requires
        auth_ok(pre.sstore, a, p),
        pre.unlocked.dom().contains(a) ==> !(pre.unlocked[a].unlock is Perm),
    ensures
        unlock_result(pre, a, p) == Ok::<(), Error>(()),
        ({
            let v1 = unlock_post(pre, a, p, Unlock::Temp);
            let v2 = sign_post(v1, a, now1);
            &&& sign_result(v1, a, m1, now1) == Ok::<Signature, Error>(
                (Signature { signer: a, message: m1 }),
            )
            &&& !v2.unlocked.dom().contains(a)
            &&& sign_result(v2, a, m2, now2) == Err::<Signature, Error>(Error::NotUnlocked)
        }),
{
}

/// A serialized run of signing attempts against one temporarily unlocked
/// account yields exactly one success, whatever its length, order and
/// instants: what concurrent callers racing on the table's lock observe.
pub proof fn lemma_temporary_unlock_single_success(
    v: ProviderView,
    a: Address,
    m: [u8; 32],
    times: Seq<u64>,
)
    requires
        times.len() > 0,
        v.unlocked.dom().contains(a),
        v.unlocked[a].unlock is Temp,
        auth_ok(v.sstore, a, v.unlocked[a].password),
    ensures
        run_successes(v, a, m, times) == 1,
{
    let v1 = sign_post(v, a, times[0]);
    assert(sign_result(v, a, m, times[0]) is Ok);
    lemma_locked_stays_locked(v1, a, m, times.subrange(1, times.len() as int));
}

/// End to end: after a temporary unlock with the account's password, a
/// serialized run of signing attempts — however many callers raced to make
/// them, in whatever order the lock let them through — succeeds exactly once.
pub proof fn lemma_temporary_unlock_run(
    pre: ProviderView,
    a: Address,
    p: Seq<char>,
    m: [u8; 32],
    times: Seq<u64>,
)
    requires
        times.len() > 0,
        auth_ok(pre.sstore, a, p),
        pre.unlocked.dom().contains(a) ==> !(pre.unlocked[a].unlock is Perm),
    ensures
        run_successes(unlock_post(pre, a, p, Unlock::Temp), a, m, times) == 1,
{
    lemma_temporary_unlock_single_success(unlock_post(pre, a, p, Unlock::Temp), a, m, times);
}

/// A permanently unlocked account whose recorded password the store accepts
/// signs on every attempt of a run, and the run leaves the state unchanged.
pub proof fn lemma_permanent_record_signs_always(
    v: ProviderView,
    a: Address,
    m: [u8; 32],
    times: Seq<u64>,
)
    requires
        v.unlocked.dom().contains(a),
        v.unlocked[a].unlock is Perm,
        auth_ok(v.sstore, a, v.unlocked[a].password),
    ensures
        run_post(v, a, times) == v,
        run_successes(v, a, m, times) == times.len(),
    decreases times.len(),
{
    if times.len() > 0 {
        assert(sign_result(v, a, m, times[0]) is Ok);
        lemma_permanent_record_signs_always(v, a, m, times.subrange(1, times.len() as int));
    }
}

/// After a permanent unlock with the account's password, every signing
/// attempt of any run succeeds.
pub proof fn lemma_permanent_unlock_signs_always(
    pre: ProviderView,
    a: Address,
    p: Seq<char>,
    m: [u8; 32],
    times: Seq<u64>,
)
    requires
        auth_ok(pre.sstore, a, p),
        pre.unlocked.dom().contains(a) && pre.unlocked[a].unlock is Perm ==> auth_ok(
            pre.sstore,
            a,
            pre.unlocked[a].password,
        ),
    ensures
        unlock_result(pre, a, p) == Ok::<(), Error>(()),
        run_successes(unlock_post(pre, a, p, Unlock::Perm), a, m, times) == times.len(),
{
    let v = unlock_post(pre, a, p, Unlock::Perm);
    lemma_permanent_record_signs_always(v, a, m, times);
}

/// A timed unlock signs while its window is open and fails once the window
/// has passed; the failing attempt evicts the record from the table.
pub proof fn lemma_timed_unlock_window(
    pre: ProviderView,
    a: Address,
    p: Seq<char>,
    duration_ms: u32,
    start_ms: u64,
    m: [u8; 32],
    now_ms: u64,
)
    requires
        auth_ok(pre.sstore, a, p),
        pre.unlocked.dom().contains(a) ==> !(pre.unlocked[a].unlock is Perm),
    ensures
        ({
            let v = unlock_post(pre, a, p, (Unlock::Timed { start_ms, duration_ms }));
            &&& now_ms <= start_ms + duration_ms ==> sign_result(v, a, m, now_ms)
                == Ok::<Signature, Error>((Signature { signer: a, message: m })) && sign_post(
                v,
                a,
                now_ms,
            ) == v
            &&& now_ms > start_ms + duration_ms ==> sign_result(v, a, m, now_ms) == Err::<
                Signature,
                Error,
            >(Error::NotUnlocked) && !sign_post(v, a, now_ms).unlocked.dom().contains(a)
        }),
{
}

/// Unlocking with a password the store refuses never creates a table entry:
/// the state is unchanged, the unlock reports the store's error, and a
/// subsequent signing attempt still fails with `NotUnlocked`.
pub proof fn lemma_wrong_password_leaves_locked(
    pre: ProviderView,
    a: Address,
    p: Seq<char>,
    u: Unlock,
    m: [u8; 32],
    now_ms: u64,
)
    requires
        !auth_ok(pre.sstore, a, p),
        !pre.unlocked.dom().contains(a),
    ensures
        unlock_post(pre, a, p, u) == pre,
        unlock_result(pre, a, p) is Err,
        sign_result(unlock_post(pre, a, p, u), a, m, now_ms) == Err::<Signature, Error>(
            Error::NotUnlocked,
        ),
{
}

/// Re-unlocking a permanently unlocked account — with a temporary request,
/// a timed request, any password — never downgrades it: the state is
/// unchanged, and signing still succeeds at every later instant.
pub proof fn lemma_permanent_never_downgraded(
    pre: ProviderView,
    a: Address,
    p: Seq<char>,
    u: Unlock,
    m: [u8; 32],
    now_ms: u64,
)
    requires
        pre.unlocked.dom().contains(a),
        pre.unlocked[a].unlock is Perm,
        auth_ok(pre.sstore, a, pre.unlocked[a].password),
    ensures
        unlock_post(pre, a, p, u) == pre,
        sign_result(pre, a, m, now_ms) == Ok::<Signature, Error>(
            (Signature { signer: a, message: m }),
        ),
        sign_post(pre, a, now_ms) == pre,
{
}

} // verus!
