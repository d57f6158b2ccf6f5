//! DID records and their store.
//!
//! A DID record is created once, at generation time: the identifier and the
//! signing key come from the DID signer, the RSA encryption keypair is
//! generated here. The store's invariant carries what every later
//! decryption relies on: each record's two encryption keys are the halves
//! of one RSA keypair.

use vstd::prelude::*;

use crate::envelope;
use crate::envelope::keypair_b64;
use crate::error::Error;

verus! {

/// One DID record: the identifier, the signing key material, and the
/// base64-wrapped PEM encryption keypair. The private halves never leave
/// the store boundary.
#[derive(Debug)]
pub struct Did {
    pub id: String,
    pub jwk: String,
    pub encrypt_public_key: String,
    pub encrypt_private_key: String,
    pub created_at: i64,
    pub updated_at: i64,
}

impl Clone for Did {
    fn clone(&self) -> (r: Self)
        ensures
            r == *self,
    {
        Did {
            id: self.id.clone(),
            jwk: self.jwk.clone(),
            encrypt_public_key: self.encrypt_public_key.clone(),
            encrypt_private_key: self.encrypt_private_key.clone(),
            created_at: self.created_at,
            updated_at: self.updated_at,
        }
    }
}

/// That a record with this id sits at index `i`.
pub open spec fn did_record_at(s: Seq<Did>, id: Seq<char>, i: int) -> bool {
    0 <= i < s.len() && s[i].id@ == id
}

/// That some record carries this id.
pub open spec fn has_did_record(s: Seq<Did>, id: Seq<char>) -> bool {
    exists|i: int| did_record_at(s, id, i)
}

/// Well-formedness of the stored records: ids are unique, and every
/// record's encryption keys are the two halves of one RSA keypair, short
/// enough to seal under.
pub open spec fn dids_wf(s: Seq<Did>) -> bool {
    &&& forall|i: int, j: int|
        0 <= i < j < s.len() ==> (#[trigger] s[i]).id@ != (#[trigger] s[j]).id@
    &&& forall|i: int|
        0 <= i < s.len() ==> keypair_b64(
            (#[trigger] s[i]).encrypt_private_key@,
            s[i].encrypt_public_key@,
        )
    &&& forall|i: int|
        0 <= i < s.len() ==> (#[trigger] s[i]).encrypt_private_key@.len() <= 0x10000
            && s[i].encrypt_public_key@.len() <= 0x10000
}

/// The store of DID records, one per generated identity.
pub struct DidStore {
    dids: Vec<Did>,
}

impl View for DidStore {
    type V = Seq<Did>;

    closed spec fn view(&self) -> Seq<Did> {
        self.dids@
    }
}

impl DidStore {
    /// The stored records are well-formed: see [`dids_wf`].
    pub open spec fn wf(self) -> bool {
        dids_wf(self@)
    }

    pub fn new() -> (r: DidStore)
        ensures
            r@ =~= Seq::<Did>::empty(),
            r.wf(),
    {
        DidStore { dids: Vec::new() }
    }

    fn find_index(&self, id: &str) -> (r: Option<usize>)
        ensures
            match r {
                Some(i) => did_record_at(self@, id@, i as int),
                None => !has_did_record(self@, id@),
            },
    {
        let d = id.to_owned();
        let n = self.dids.len();
        let mut i: usize = 0;
        while i < n
            invariant
                n == self@.len(),
                i <= n,
                d@ == id@,
                forall|j: int| 0 <= j < i ==> (#[trigger] self@[j]).id@ != id@,
            decreases n - i,
        {
            if self.dids[i].id == d {
                return Some(i);
            }
            i = i + 1;
        }
        None
    }

    /// The record under a DID.
    pub fn find_by_id(&self, id: &str) -> (r: Result<Did, Error>)
        ensures
            match r {
                Ok(v) => exists|i: int| did_record_at(self@, id@, i) && v == self@[i],
                Err(e) => e == Error::RecordNotFound && !has_did_record(self@, id@),
            },
    {
        match self.find_index(id) {
            Some(i) => Ok(self.dids[i].clone()),
            None => Err(Error::RecordNotFound),
        }
    }
}

/// The DID generation flow around the store.
pub struct DidService;

impl DidService {
    /// Registers a DID the signer derived: stores the identifier and its
    /// signing key material together with a freshly generated RSA
    /// encryption keypair, immutable from then on. Returns the identifier.
    pub fn did_create(store: &mut DidStore, did: &str, jwk: &str, now: i64) -> (r: Result<
        String,
        Error,
    >)
        requires
            old(store).wf(),
        ensures
            final(store).wf(),
            match r {
                Ok(d) => {
                    &&& d@ == did@
                    &&& !has_did_record(old(store)@, did@)
                    &&& final(store)@.len() == old(store)@.len() + 1
                    &&& final(store)@.drop_last() == old(store)@
                    &&& final(store)@.last().id@ == did@
                    &&& final(store)@.last().jwk@ == jwk@
                    &&& keypair_b64(
                        final(store)@.last().encrypt_private_key@,
                        final(store)@.last().encrypt_public_key@,
                    )
                    &&& final(store)@.last().created_at == now
                },
                Err(e) => {
                    &&& e == Error::DuplicateRecord
                    &&& has_did_record(old(store)@, did@)
                    &&& final(store)@ == old(store)@
                },
            },
    {
        match store.find_index(did) {
            Some(_) => Err(Error::DuplicateRecord),
            None => {
                let key_pair = envelope::generate_rsa_keypair();
                let record = Did {
                    id: did.to_owned(),
                    jwk: jwk.to_owned(),
                    encrypt_private_key: key_pair.0,
                    encrypt_public_key: key_pair.1,
                    created_at: now,
                    updated_at: now,
                };
                store.dids.push(record);
                proof {
                    assert(store@.drop_last() =~= old(store)@);
                    assert forall|i: int, j: int| 0 <= i < j < store@.len() implies (
                    #[trigger] store@[i]).id@ != (#[trigger] store@[j]).id@ by {
                        if j == store@.len() - 1 {
                            assert(!did_record_at(old(store)@, did@, i));
                        }
                    }
                }
                Ok(did.to_owned())
            },
        }
    }
}

} // verus!
