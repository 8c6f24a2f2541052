//! The unlock coordinator: owns the secret store and the unlock table,
//! grants signing capability after password verification, and enforces
//! consumption and expiry of that capability.
//!
//! Mutating operations take `&mut self`: callers that share one coordinator
//! across threads serialize them behind a lock, so each contract describes
//! one atomic step of the state machine.

use vstd::prelude::*;
use crate::addr::Address;
use crate::assoc::AddrMap;
use crate::host;
use crate::store::SSError;
use crate::store::SecretStore;
use crate::store::Signature;
use crate::store::StoreRec;
use crate::store::auth_ok;
use crate::store::opt_view;
use crate::store::store_sign_spec;
use crate::table::AccountData;
use crate::table::Unlock;
use crate::table::UnlockRec;
use crate::table::expired;
use crate::table::is_expired;
use crate::table::lemma_lift_table_dom;
use crate::table::lemma_lift_table_empty;
use crate::table::lemma_lift_table_insert;
use crate::table::lemma_lift_table_remove;
use crate::table::lift_table;

verus! {

/// Coordinator errors.
#[derive(Clone, Copy, Debug, PartialEq, Eq, Structural)]
pub enum Error {
    /// Signing was attempted without a live, non-expired capability.
    NotUnlocked,
    /// The secret store failed: unknown account or wrong password.
    SStore(SSError),
}

impl Error {
    /// A short description of the error.
    pub fn message(&self) -> (s: &'static str)
        ensures
            *self == Error::NotUnlocked ==> s@ == "Account is locked"@,
            *self == Error::SStore(SSError::InvalidAccount) ==> s@ == "Invalid account"@,
            *self == Error::SStore(SSError::InvalidPassword) ==> s@ == "Invalid password"@,
    {
        match self {
            Error::NotUnlocked => "Account is locked",
            Error::SStore(SSError::InvalidAccount) => "Invalid account",
            Error::SStore(SSError::InvalidPassword) => "Invalid password",
        }
    }
}

impl From<SSError> for Error {
    fn from(e: SSError) -> (r: Error) {
        Error::SStore(e)
    }
}

impl vstd::std_specs::convert::FromSpecImpl<SSError> for Error {
    open spec fn obeys_from_spec() -> bool {
        true
    }

    open spec fn from_spec(e: SSError) -> Error {
        Error::SStore(e)
    }
}

/// Collected account metadata.
#[derive(Clone, Debug, PartialEq)]
pub struct AccountMeta {
    /// The name of the account.
    pub name: String,
    /// The rest of the metadata of the account.
    pub meta: String,
    /// The UUID of the account, if it has one.
    pub uuid: Option<String>,
}

impl Default for AccountMeta {
    fn default() -> (r: Self)
        ensures
            r.name@ == Seq::<char>::empty(),
            r.meta@ == "{}"@,
            r.uuid is None,
    {
        AccountMeta { name: String::new(), meta: "{}".to_owned(), uuid: None }
    }
}

/// The coordinator's whole state: the store's accounts and the unlock table.
pub ghost struct ProviderView {
    pub sstore: Map<Address, StoreRec>,
    pub unlocked: Map<Address, UnlockRec>,
}

/// The store error an unlock request surfaces when verification fails.
pub open spec fn store_auth_err(st: Map<Address, StoreRec>, a: Address, p: Seq<char>) -> SSError {
    if !st.dom().contains(a) {
        SSError::InvalidAccount
    } else {
        SSError::InvalidPassword
    }
}

/// The state after an unlock request: untouched when verification fails or
/// the account is already permanently unlocked, else the record at `a` is
/// inserted or overwritten with mode `u`.
pub open spec fn unlock_post(pre: ProviderView, a: Address, p: Seq<char>, u: Unlock) -> ProviderView {
    if !auth_ok(pre.sstore, a, p) {
        pre
    } else if pre.unlocked.dom().contains(a) && pre.unlocked[a].unlock is Perm {
        pre
    } else {
        ProviderView { unlocked: pre.unlocked.insert(a, (UnlockRec { unlock: u, password: p })), ..pre }
    }
}

/// What an unlock request returns: success exactly when the password opens
/// the account in the store.
pub open spec fn unlock_result(pre: ProviderView, a: Address, p: Seq<char>) -> Result<(), Error> {
    if auth_ok(pre.sstore, a, p) {
        Ok(())
    } else {
        Err(Error::SStore(store_auth_err(pre.sstore, a, p)))
    }
}

/// The state after a signing attempt at `now_ms`: a `Temp` record is
/// consumed, an expired `Timed` record is evicted, everything else stays.
pub open spec fn sign_post(pre: ProviderView, a: Address, now_ms: u64) -> ProviderView {
    if !pre.unlocked.dom().contains(a) {
        pre
    } else if pre.unlocked[a].unlock is Temp || expired(pre.unlocked[a].unlock, now_ms) {
        ProviderView { unlocked: pre.unlocked.remove(a), ..pre }
    } else {
        pre
    }
}

/// A store signing result, surfaced through the coordinator's error type.
pub open spec fn lift_result(r: Result<Signature, SSError>) -> Result<Signature, Error> {
    match r {
        Ok(s) => Ok(s),
        Err(e) => Err(Error::SStore(e)),
    }
}

/// What a signing attempt at `now_ms` returns: `NotUnlocked` without a live,
/// non-expired capability, else the store's verify-and-sign with the
/// recorded password.
pub open spec fn sign_result(
    pre: ProviderView,
    a: Address,
    message: [u8; 32],
    now_ms: u64,
) -> Result<Signature, Error> {
    if !pre.unlocked.dom().contains(a) || expired(pre.unlocked[a].unlock, now_ms) {
        Err(Error::NotUnlocked)
    } else {
        lift_result(store_sign_spec(pre.sstore, a, pre.unlocked[a].password, message))
    }
}

/// Account management: responsible for unlocking accounts and signing on
/// their behalf while the granted capability is live.
pub struct AccountProvider {
    sstore: SecretStore,
    unlocked: AddrMap<AccountData>,
}

impl View for AccountProvider {
    type V = ProviderView;

    closed spec fn view(&self) -> ProviderView {
        ProviderView { sstore: self.sstore@, unlocked: lift_table(self.unlocked@) }
    }
}

impl AccountProvider {
    /// Creates a new account provider over a secret store; nothing starts
    /// unlocked.
    pub fn new(sstore: SecretStore) -> (r: Self)
        ensures
            r@.sstore == sstore@,
            r@.unlocked == Map::<Address, UnlockRec>::empty(),
    {
        proof {
            lemma_lift_table_empty();
        }
        AccountProvider { sstore, unlocked: AddrMap::new() }
    }

    /// Creates a provider over an empty in-memory store.
    pub fn transient_provider() -> (r: Self)
        ensures
            r@.sstore == Map::<Address, StoreRec>::empty(),
            r@.unlocked == Map::<Address, UnlockRec>::empty(),
    {
        Self::new(SecretStore::empty())
    }

    /// Creates a new account from fresh random key material.  Does not
    /// unlock it.
    pub fn new_account(&mut self, password: &str) -> (r: Result<Address, Error>)
        ensures
            r is Ok,
            final(self)@.unlocked == old(self)@.unlocked,
            r matches Ok(a) ==> exists|secret: Seq<u8>|
                secret.len() == 32 && a.0@ == secret.subrange(0, 20) && final(self)@.sstore == old(
                    self,
                )@.sstore.insert(
                    a,
                    (StoreRec {
                        secret,
                        password: password@,
                        name: Seq::empty(),
                        meta: "{}"@,
                        uuid: None,
                    }),
                ),
    {
        let secret = host::random_bytes32();
        let r = self.insert_account(secret, password);
        proof {
            if r is Ok {
                let a = r->Ok_0;
                let s = secret@;
                assert(s.len() == 32 && a.0@ == s.subrange(0, 20) && self@.sstore == old(
                    self,
                )@.sstore.insert(
                    a,
                    (StoreRec {
                        secret: s,
                        password: password@,
                        name: Seq::empty(),
                        meta: "{}"@,
                        uuid: None,
                    }),
                ));
            }
        }
        r
    }

    /// Inserts key material into the underlying store.  Does not unlock the
    /// account.
    pub fn insert_account(&mut self, secret: [u8; 32], password: &str) -> (r: Result<
        Address,
        Error,
    >)
        ensures
            r is Ok,
            final(self)@.unlocked == old(self)@.unlocked,
            r matches Ok(a) ==> a.0@ == secret@.subrange(0, 20) && final(self)@.sstore == old(
                self,
            )@.sstore.insert(
                a,
                (StoreRec {
                    secret: secret@,
                    password: password@,
                    name: Seq::empty(),
                    meta: "{}"@,
                    uuid: None,
                }),
            ),
    {
        match self.sstore.insert_account(secret, password) {
            Ok(a) => Ok(a),
            Err(e) => Err(Error::SStore(e)),
        }
    }

    /// The addresses of all stored accounts, each once.
    pub fn accounts(&self) -> (r: Result<Vec<Address>, Error>)
        ensures
            r is Ok,
            r matches Ok(v) ==> v@.no_duplicates() && v@.to_set() == self@.sstore.dom(),
    {
        match self.sstore.accounts() {
            Ok(v) => Ok(v),
            Err(e) => Err(Error::SStore(e)),
        }
    }

    /// The name, metadata and optional UUID of one account.
    pub fn account_meta(&self, account: &Address) -> (r: Result<AccountMeta, Error>)
        ensures
            r is Ok <==> self@.sstore.dom().contains(*account),
            r matches Ok(m) ==> m.name@ == self@.sstore[*account].name && m.meta@
                == self@.sstore[*account].meta && opt_view(m.uuid) == self@.sstore[*account].uuid,
            r matches Err(e) ==> e == Error::SStore(SSError::InvalidAccount),
    {
        let name = match self.sstore.name(account) {
            Ok(n) => n,
            Err(e) => {
                return Err(Error::SStore(e));
            },
        };
        let meta = match self.sstore.meta(account) {
            Ok(m) => m,
            Err(e) => {
                return Err(Error::SStore(e));
            },
        };
        // an account is allowed to have no UUID
        let uuid = match self.sstore.uuid(account) {
            Ok(u) => u,
            Err(_) => None,
        };
        Ok(AccountMeta { name, meta, uuid })
    }

    /// Every account along with its name, metadata and optional UUID.  A
    /// failed per-account fetch is swallowed into a default value rather
    /// than failing the whole enumeration.
    pub fn accounts_info(&self) -> (r: Result<AddrMap<AccountMeta>, Error>)
        ensures
            r is Ok,
            r matches Ok(m) ==> m@.dom() == self@.sstore.dom() && forall|a: Address|
                #[trigger] m@.dom().contains(a) ==> m@[a].name@ == self@.sstore[a].name
                    && m@[a].meta@ == self@.sstore[a].meta && opt_view(m@[a].uuid)
                    == self@.sstore[a].uuid,
    {
        let list = match self.accounts() {
            Ok(v) => v,
            Err(e) => {
                return Err(e);
            },
        };
        let n = list.len();
        let mut info: AddrMap<AccountMeta> = AddrMap::new();
        let mut i: usize = 0;
        while i < n
            invariant
                i <= n == list@.len(),
                list@.no_duplicates(),
                list@.to_set() == self@.sstore.dom(),
                info@.dom() == list@.take(i as int).to_set(),
                forall|a: Address| #[trigger]
                    info@.dom().contains(a) ==> info@[a].name@ == self@.sstore[a].name
                        && info@[a].meta@ == self@.sstore[a].meta && opt_view(info@[a].uuid)
                        == self@.sstore[a].uuid,
            decreases n - i,
        {
            let a = list[i];
            proof {
                assert(list@.to_set().contains(list@[i as int]));
                lemma_take_to_set_step(list@, i as int);
            }
            let m = match self.account_meta(&a) {
                Ok(m) => m,
                Err(_) => AccountMeta::default(),
            };
            info.insert(a, m);
            i += 1;
        }
        proof {
            assert(list@.take(n as int) =~= list@);
        }
        Ok(info)
    }

    /// Renames an account in the store.
    pub fn set_account_name(&mut self, account: &Address, name: String) -> (r: Result<(), Error>)
        ensures
            final(self)@.unlocked == old(self)@.unlocked,
            r is Ok <==> old(self)@.sstore.dom().contains(*account),
            r is Ok ==> final(self)@.sstore == old(self)@.sstore.insert(
                *account,
                (StoreRec { name: name@, ..old(self)@.sstore[*account] }),
            ),
            r is Err ==> final(self)@.sstore == old(self)@.sstore && r == Err::<(), Error>(
                Error::SStore(SSError::InvalidAccount),
            ),
    {
        match self.sstore.set_name(account, name) {
            Ok(u) => Ok(u),
            Err(e) => Err(Error::SStore(e)),
        }
    }

    /// Replaces an account's metadata string in the store.
    pub fn set_account_meta(&mut self, account: &Address, meta: String) -> (r: Result<(), Error>)
        ensures
            final(self)@.unlocked == old(self)@.unlocked,
            r is Ok <==> old(self)@.sstore.dom().contains(*account),
            r is Ok ==> final(self)@.sstore == old(self)@.sstore.insert(
                *account,
                (StoreRec { meta: meta@, ..old(self)@.sstore[*account] }),
            ),
            r is Err ==> final(self)@.sstore == old(self)@.sstore && r == Err::<(), Error>(
                Error::SStore(SSError::InvalidAccount),
            ),
    {
        match self.sstore.set_meta(account, meta) {
            Ok(u) => Ok(u),
            Err(e) => Err(Error::SStore(e)),
        }
    }

    /// Verifies the password by signing a dummy message, then records the
    /// unlock; a failed verification leaves the table untouched, and an
    /// existing permanent unlock is never overwritten.
    fn unlock_account(&mut self, account: &Address, password: String, unlock: Unlock) -> (r: Result<
        (),
        Error,
    >)
        ensures
            final(self)@ == unlock_post(old(self)@, *account, password@, unlock),
            r == unlock_result(old(self)@, *account, password@),
    {
        // verify the password by signing a dummy message; the signature is
        // discarded
        match self.sstore.sign(account, password.as_str(), [0u8; 32]) {
            Ok(_) => (),
            Err(e) => {
                return Err(Error::SStore(e));
            },
        };
        proof {
            lemma_lift_table_dom(self.unlocked@);
        }
        // an account that is already unlocked permanently stays as it is
        let keep = match self.unlocked.get(account) {
            Some(data) => match data.unlock {
                Unlock::Perm => true,
                _ => false,
            },
            None => false,
        };
        if keep {
            return Ok(());
        }
        let data = AccountData { unlock, password };
        proof {
            lemma_lift_table_insert(self.unlocked@, *account, data);
        }
        self.unlocked.insert(*account, data);
        Ok(())
    }

    /// Unlocks an account permanently: it signs until explicit revocation
    /// or process restart.
    pub fn unlock_account_permanently(&mut self, account: &Address, password: String) -> (r: Result<
        (),
        Error,
    >)
        ensures
            final(self)@ == unlock_post(old(self)@, *account, password@, Unlock::Perm),
            r == unlock_result(old(self)@, *account, password@),
    {
        self.unlock_account(account, password, Unlock::Perm)
    }

    /// Unlocks an account temporarily: the capability is consumed by the
    /// first signing operation.
    pub fn unlock_account_temporarily(&mut self, account: &Address, password: String) -> (r: Result<
        (),
        Error,
    >)
        ensures
            final(self)@ == unlock_post(old(self)@, *account, password@, Unlock::Temp),
            r == unlock_result(old(self)@, *account, password@),
    {
        self.unlock_account(account, password, Unlock::Temp)
    }

    /// Unlocks an account for `duration_ms` milliseconds starting at the
    /// given clock reading.
    pub fn unlock_account_timed_at(
        &mut self,
        account: &Address,
        password: String,
        duration_ms: u32,
        now_ms: u64,
    ) -> (r: Result<(), Error>)
        ensures
            final(self)@ == unlock_post(
                old(self)@,
                *account,
                password@,
                (Unlock::Timed { start_ms: now_ms, duration_ms }),
            ),
            r == unlock_result(old(self)@, *account, password@),
    {
        self.unlock_account(account, password, Unlock::Timed { start_ms: now_ms, duration_ms })
    }

    /// Unlocks an account for `duration_ms` milliseconds from now, reading
    /// the machine's clock for the start instant.
    pub fn unlock_account_timed(
        &mut self,
        account: &Address,
        password: String,
        duration_ms: u32,
    ) -> (r: Result<(), Error>)
        ensures
            r == unlock_result(old(self)@, *account, password@),
            final(self)@.sstore == old(self)@.sstore,
            r is Err ==> final(self)@ == old(self)@,
            exists|start_ms: u64|
                final(self)@ == unlock_post(
                    old(self)@,
                    *account,
                    password@,
                    (Unlock::Timed { start_ms, duration_ms }),
                ),
    {
        let ghost p = password@;
        let now = host::now_millis();
        let r = self.unlock_account_timed_at(account, password, duration_ms, now);
        proof {
            assert(self@ == unlock_post(
                old(self)@,
                *account,
                p,
                (Unlock::Timed { start_ms: now, duration_ms }),
            ));
        }
        r
    }

    /// Whether the account has an unlock record.  A `Timed` record that has
    /// logically expired still counts until a signing attempt evicts it.
    pub fn is_unlocked(&self, account: &Address) -> (r: bool)
        ensures
            r == self@.unlocked.dom().contains(*account),
    {
        proof {
            lemma_lift_table_dom(self.unlocked@);
        }
        self.unlocked.contains(account)
    }

    /// Signs `message`, judging expiry against the given clock reading: the
    /// capability is checked and consumed or evicted first, and only then is
    /// the store asked for the real signature.
    pub fn sign_at(&mut self, account: &Address, message: [u8; 32], now_ms: u64) -> (r: Result<
        Signature,
        Error,
    >)
        ensures
            final(self)@ == sign_post(old(self)@, *account, now_ms),
            r == sign_result(old(self)@, *account, message, now_ms),
    {
        proof {
            lemma_lift_table_dom(self.unlocked@);
        }
        let (unlock, password) = match self.unlocked.get(account) {
            None => {
                return Err(Error::NotUnlocked);
            },
            Some(data) => (data.unlock, data.password.clone()),
        };
        let temp = match unlock {
            Unlock::Temp => true,
            _ => false,
        };
        if temp {
            // consumed by this one use; the clone above captured the password
            proof {
                lemma_lift_table_remove(self.unlocked@, *account);
            }
            self.unlocked.remove(account);
        }
        if is_expired(&unlock, now_ms) {
            // expiry is checked before use: no final signature on a spent
            // capability
            proof {
                lemma_lift_table_remove(self.unlocked@, *account);
            }
            self.unlocked.remove(account);
            return Err(Error::NotUnlocked);
        }
        match self.sstore.sign(account, password.as_str(), message) {
            Ok(sig) => Ok(sig),
            Err(e) => Err(Error::SStore(e)),
        }
    }

    /// Signs `message` if the account holds a live capability, reading the
    /// machine's clock to judge expiry of a `Timed` unlock.
    pub fn sign(&mut self, account: &Address, message: [u8; 32]) -> (r: Result<Signature, Error>)
        ensures
            final(self)@.sstore == old(self)@.sstore,
            exists|now_ms: u64|
                final(self)@ == sign_post(old(self)@, *account, now_ms) && r == sign_result(
                    old(self)@,
                    *account,
                    message,
                    now_ms,
                ),
            !old(self)@.unlocked.dom().contains(*account) ==> final(self)@ == old(self)@ && r
                == Err::<Signature, Error>(Error::NotUnlocked),
            old(self)@.unlocked.dom().contains(*account) && old(
                self,
            )@.unlocked[*account].unlock is Temp ==> final(self)@.unlocked == old(
                self,
            )@.unlocked.remove(*account) && r == lift_result(
                store_sign_spec(
                    old(self)@.sstore,
                    *account,
                    old(self)@.unlocked[*account].password,
                    message,
                ),
            ),
            old(self)@.unlocked.dom().contains(*account) && old(
                self,
            )@.unlocked[*account].unlock is Perm ==> final(self)@ == old(self)@ && r == lift_result(
                store_sign_spec(
                    old(self)@.sstore,
                    *account,
                    old(self)@.unlocked[*account].password,
                    message,
                ),
            ),
            old(self)@.unlocked.dom().contains(*account) && old(
                self,
            )@.unlocked[*account].unlock is Timed ==> (final(self)@ == old(self)@ && r
                == lift_result(
                store_sign_spec(
                    old(self)@.sstore,
                    *account,
                    old(self)@.unlocked[*account].password,
                    message,
                ),
            )) || (final(self)@.unlocked == old(self)@.unlocked.remove(*account) && r == Err::<
                Signature,
                Error,
            >(Error::NotUnlocked)),
    {
        let now = host::now_millis();
        let r = self.sign_at(account, message, now);
        proof {
            assert(self@ == sign_post(old(self)@, *account, now) && r == sign_result(
                old(self)@,
                *account,
                message,
                now,
            ));
        }
        r
    }

    /// A one-shot authenticate-and-sign that neither reads nor writes any
    /// unlock record.
    pub fn sign_with_password(&self, account: &Address, password: String, message: [u8; 32]) -> (r:
        Result<Signature, Error>)
        ensures
            r == lift_result(store_sign_spec(self@.sstore, *account, password@, message)),
    {
        match self.sstore.sign(account, password.as_str(), message) {
            Ok(sig) => Ok(sig),
            Err(e) => Err(Error::SStore(e)),
        }
    }
}

/// Taking one more element of a sequence grows the set of the taken prefix
/// by exactly that element.
proof fn lemma_take_to_set_step<T>(s: Seq<T>, i: int)
    requires
        0 <= i < s.len(),
    ensures
        s.take(i + 1).to_set() == s.take(i).to_set().insert(s[i]),
{
    assert forall|x: T| s.take(i + 1).to_set().contains(x) == s.take(i).to_set().insert(
        s[i],
    ).contains(x) by {
        if s.take(i + 1).to_set().contains(x) {
            let j = choose|j: int| 0 <= j < i + 1 && (#[trigger] s.take(i + 1)[j]) == x;
            if j < i {
                assert(s.take(i)[j] == x);
                assert(s.take(i).to_set().contains(x));
            }
        }
        if s.take(i).to_set().contains(x) {
            let j = choose|j: int| 0 <= j < i && (#[trigger] s.take(i)[j]) == x;
            assert(s.take(i + 1)[j] == x);
            assert(s.take(i + 1).to_set().contains(x));
        }
        if x == s[i] {
            assert(s.take(i + 1)[i] == x);
            assert(s.take(i + 1).to_set().contains(x));
        }
    }
    assert(s.take(i + 1).to_set() =~= s.take(i).to_set().insert(s[i]));
}

} // verus!
