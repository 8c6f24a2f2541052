//! An in-memory secret store: the process-local key directory the
//! coordinator delegates password verification and signing to.

use vstd::prelude::*;
use crate::addr::Address;
use crate::assoc::AddrMap;

verus! {

/// Errors of the secret store.
#[derive(Clone, Copy, Debug, PartialEq, Eq, Structural)]
pub enum SSError {
    /// No account with the given address is stored.
    InvalidAccount,
    /// The password does not open the account's key material.
    InvalidPassword,
}

/// A signature over a 32-byte message by the key pair of `signer`.
#[derive(Clone, Copy, Debug)]
pub struct Signature {
    pub signer: Address,
    pub message: [u8; 32],
}

/// One stored account: key material opened by `password`, plus metadata.
#[derive(Debug)]
pub struct StoredAccount {
    pub secret: [u8; 32],
    pub password: String,
    pub name: String,
    pub meta: String,
    pub uuid: Option<String>,
}

/// The mathematical shape of a stored account.
pub ghost struct StoreRec {
    pub secret: Seq<u8>,
    pub password: Seq<char>,
    pub name: Seq<char>,
    pub meta: Seq<char>,
    pub uuid: Option<Seq<char>>,
}

/// The view of an optional string.
pub open spec fn opt_view(o: Option<String>) -> Option<Seq<char>> {
    match o {
        Some(s) => Some(s@),
        None => None,
    }
}

/// The record a stored account stands for.
pub open spec fn stored_rec(s: StoredAccount) -> StoreRec {
    StoreRec {
        secret: s.secret@,
        password: s.password@,
        name: s.name@,
        meta: s.meta@,
        uuid: opt_view(s.uuid),
    }
}

/// The store a map of stored accounts stands for.
pub open spec fn lift_store(m: Map<Address, StoredAccount>) -> Map<Address, StoreRec> {
    Map::new(|a: Address| m.dom().contains(a), |a: Address| stored_rec(m[a]))
}

pub proof fn lemma_lift_store_empty()
    ensures
        lift_store(Map::empty()) == Map::<Address, StoreRec>::empty(),
{
    assert(lift_store(Map::empty()) =~= Map::<Address, StoreRec>::empty());
}

pub proof fn lemma_lift_store_insert(m: Map<Address, StoredAccount>, a: Address, s: StoredAccount)
    ensures
        lift_store(m.insert(a, s)) == lift_store(m).insert(a, stored_rec(s)),
{
    assert(lift_store(m.insert(a, s)) =~= lift_store(m).insert(a, stored_rec(s)));
}

pub proof fn lemma_lift_store_dom(m: Map<Address, StoredAccount>)
    ensures
        lift_store(m).dom() == m.dom(),
{
    assert(lift_store(m).dom() =~= m.dom());
}

/// Password `p` opens the account at `a`.
pub open spec fn auth_ok(st: Map<Address, StoreRec>, a: Address, p: Seq<char>) -> bool {
    st.dom().contains(a) && st[a].password == p
}

/// What verify-and-sign returns: the store's one password-verification
/// primitive, which always bundles verification with producing a signature.
pub open spec fn store_sign_spec(
    st: Map<Address, StoreRec>,
    a: Address,
    p: Seq<char>,
    message: [u8; 32],
) -> Result<Signature, SSError> {
    if !st.dom().contains(a) {
        Err(SSError::InvalidAccount)
    } else if st[a].password != p {
        Err(SSError::InvalidPassword)
    } else {
        Ok(Signature { signer: a, message })
    }
}

/// The address of key material: its leading 20 bytes.
pub fn derive_address(secret: &[u8; 32]) -> (r: Address)
    ensures
        r.0@ == secret@.subrange(0, 20),
{
    let mut b: [u8; 20] = [0u8; 20];
    let mut i: usize = 0;
    while i < 20
        invariant
            i <= 20,
            forall|j: int| 0 <= j < i ==> b@[j] == secret@[j],
        decreases 20 - i,
    {
        b[i] = secret[i];
        i += 1;
    }
    proof {
        assert(b@ =~= secret@.subrange(0, 20));
    }
    Address(b)
}

/// An in-memory secret store.  It owns the mapping from address to key
/// material, decides whether a password opens an account, and produces
/// signatures; callers never see the key material itself.
pub struct SecretStore {
    accounts: AddrMap<StoredAccount>,
}

impl View for SecretStore {
    type V = Map<Address, StoreRec>;

    closed spec fn view(&self) -> Map<Address, StoreRec> {
        lift_store(self.accounts@)
    }
}

impl SecretStore {
    /// A store holding no accounts.
    pub fn empty() -> (r: Self)
        ensures
            r@ == Map::<Address, StoreRec>::empty(),
    {
        proof {
            lemma_lift_store_empty();
        }
        SecretStore { accounts: AddrMap::new() }
    }

    /// Onboards key material under a password; the new account starts with an
    /// empty name, default metadata and no UUID.  Does not unlock anything.
    pub fn insert_account(&mut self, secret: [u8; 32], password: &str) -> (r: Result<
        Address,
        SSError,
    >)
        ensures
            r is Ok,
            r matches Ok(a) ==> a.0@ == secret@.subrange(0, 20) && final(self)@ == old(
                self,
            )@.insert(
                a,
                (StoreRec {
                    secret: secret@,
                    password: password@,
                    name: Seq::empty(),
                    meta: "{}"@,
                    uuid: None,
                }),
            ),
    {
        let a = derive_address(&secret);
        let rec = StoredAccount {
            secret,
            password: password.to_owned(),
            name: String::new(),
            meta: "{}".to_owned(),
            uuid: None,
        };
        proof {
            lemma_lift_store_insert(self.accounts@, a, rec);
        }
        self.accounts.insert(a, rec);
        Ok(a)
    }

    /// Verifies `password` against the account at `account` and, on success,
    /// signs `message` with its key.
    pub fn sign(&self, account: &Address, password: &str, message: [u8; 32]) -> (r: Result<
        Signature,
        SSError,
    >)
        ensures
            r == store_sign_spec(self@, *account, password@, message),
    {
        proof {
            lemma_lift_store_dom(self.accounts@);
        }
        match self.accounts.get(account) {
            None => Err(SSError::InvalidAccount),
            Some(rec) => {
                if rec.password == password.to_owned() {
                    Ok(Signature { signer: *account, message })
                } else {
                    Err(SSError::InvalidPassword)
                }
            },
        }
    }

    /// The addresses of all stored accounts, each once.
    pub fn accounts(&self) -> (r: Result<Vec<Address>, SSError>)
        ensures
            r is Ok,
            r matches Ok(v) ==> v@.no_duplicates() && v@.to_set() == self@.dom(),
    {
        proof {
            lemma_lift_store_dom(self.accounts@);
        }
        Ok(self.accounts.keys())
    }

    /// The name of the account at `account`.
    pub fn name(&self, account: &Address) -> (r: Result<String, SSError>)
        ensures
            r is Ok <==> self@.dom().contains(*account),
            r matches Ok(s) ==> s@ == self@[*account].name,
            r matches Err(e) ==> e == SSError::InvalidAccount,
    {
        proof {
            lemma_lift_store_dom(self.accounts@);
        }
        match self.accounts.get(account) {
            None => Err(SSError::InvalidAccount),
            Some(rec) => Ok(rec.name.clone()),
        }
    }

    /// The metadata string of the account at `account`.
    pub fn meta(&self, account: &Address) -> (r: Result<String, SSError>)
        ensures
            r is Ok <==> self@.dom().contains(*account),
            r matches Ok(s) ==> s@ == self@[*account].meta,
            r matches Err(e) ==> e == SSError::InvalidAccount,
    {
        proof {
            lemma_lift_store_dom(self.accounts@);
        }
        match self.accounts.get(account) {
            None => Err(SSError::InvalidAccount),
            Some(rec) => Ok(rec.meta.clone()),
        }
    }

    /// The UUID of the account at `account`, if it has one.
    pub fn uuid(&self, account: &Address) -> (r: Result<Option<String>, SSError>)
        ensures
            r is Ok <==> self@.dom().contains(*account),
            r matches Ok(u) ==> opt_view(u) == self@[*account].uuid,
            r matches Err(e) ==> e == SSError::InvalidAccount,
    {
        proof {
            lemma_lift_store_dom(self.accounts@);
        }
        match self.accounts.get(account) {
            None => Err(SSError::InvalidAccount),
            Some(rec) => match &rec.uuid {
                Some(u) => Ok(Some(u.clone())),
                None => Ok(None),
            },
        }
    }

    /// Renames the account at `account`.
    pub fn set_name(&mut self, account: &Address, name: String) -> (r: Result<(), SSError>)
        ensures
            r is Ok <==> old(self)@.dom().contains(*account),
            r is Ok ==> final(self)@ == old(self)@.insert(
                *account,
                (StoreRec { name: name@, ..old(self)@[*account] }),
            ),
            r is Err ==> final(self)@ == old(self)@ && r == Err::<(), SSError>(
                SSError::InvalidAccount,
            ),
    {
        self.replace_meta_fields(account, Some(name), None)
    }

    /// Replaces the metadata string of the account at `account`.
    pub fn set_meta(&mut self, account: &Address, meta: String) -> (r: Result<(), SSError>)
        ensures
            r is Ok <==> old(self)@.dom().contains(*account),
            r is Ok ==> final(self)@ == old(self)@.insert(
                *account,
                (StoreRec { meta: meta@, ..old(self)@[*account] }),
            ),
            r is Err ==> final(self)@ == old(self)@ && r == Err::<(), SSError>(
                SSError::InvalidAccount,
            ),
    {
        self.replace_meta_fields(account, None, Some(meta))
    }

    /// Rewrites an account's entry with a new name or metadata string.
    fn replace_meta_fields(
        &mut self,
        account: &Address,
        name: Option<String>,
        meta: Option<String>,
    ) -> (r: Result<(), SSError>)
        ensures
            r is Ok <==> old(self)@.dom().contains(*account),
            r is Ok ==> final(self)@ == old(self)@.insert(
                *account,
                (StoreRec {
                    name: if name is Some { name->0@ } else { old(self)@[*account].name },
                    meta: if meta is Some { meta->0@ } else { old(self)@[*account].meta },
                    ..old(self)@[*account]
                }),
            ),
            r is Err ==> final(self)@ == old(self)@ && r == Err::<(), SSError>(
                SSError::InvalidAccount,
            ),
    {
        proof {
            lemma_lift_store_dom(self.accounts@);
        }
        let rec = match self.accounts.get(account) {
            None => {
                return Err(SSError::InvalidAccount);
            },
            Some(rec) => StoredAccount {
                secret: rec.secret,
                password: rec.password.clone(),
                name: match name {
                    Some(n) => n,
                    None => rec.name.clone(),
                },
                meta: match meta {
                    Some(m) => m,
                    None => rec.meta.clone(),
                },
                uuid: match &rec.uuid {
                    Some(u) => Some(u.clone()),
                    None => None,
                },
            },
        };
        proof {
            lemma_lift_store_insert(self.accounts@, *account, rec);
        }
        self.accounts.insert(*account, rec);
        Ok(())
    }
}

} // verus!
