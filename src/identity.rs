use vstd::prelude::*;

use crate::backend::{generate_secret, identity_publics_of, parse_identities};
use crate::cipher::{all_public_texts, is_public_text, lemma_texts_index, texts};
use crate::error::PageError;

verus! {

/// Whether a secret text holds at least one identity and nothing else.
pub open spec fn is_usable_secret(secret: Seq<char>) -> bool {
    identity_publics_of(secret) matches Some(p) && p.len() > 0
}

/// Private key material: the secret text it was read from, the keys parsed
/// from that text, and their public keys in text form.
pub struct Identity {
    secret: String,
    keys: Vec<age::x25519::Identity>,
    publics: Vec<String>,
}

impl Identity {
    #[verifier::type_invariant]
    spec fn well_formed(&self) -> bool {
        &&& identity_publics_of(self.secret@) == Some(texts(self.publics))
        &&& self.keys@.len() == self.publics@.len()
        &&& self.publics@.len() > 0
        &&& all_public_texts(texts(self.publics))
    }

    /// The secret text this identity was read from.
    pub closed spec fn secret_text(&self) -> Seq<char> {
        self.secret@
    }

    /// The public key of each of this identity's keys, in order.
    pub closed spec fn public_texts(&self) -> Seq<Seq<char>> {
        texts(self.publics)
    }

    /// Reads an identity from its secret text.
    pub fn new(secret: String) -> (r: Result<Identity, PageError>)
        ensures
            r is Ok <==> is_usable_secret(secret@),
            r is Err ==> r == Err::<Identity, PageError>(PageError::Format),
            r matches Ok(id) ==> id.secret_text() == secret@,
            r matches Ok(id) ==> identity_publics_of(secret@) == Some(id.public_texts()),
    {
        Self::from_secret(secret)
    }

    /// Reads an identity from its secret text, one key per line; a text with
    /// a line that is no key, or with no key at all, is refused.
    pub fn from_secret(secret: String) -> (r: Result<Identity, PageError>)
        ensures
            r is Ok <==> is_usable_secret(secret@),
            r is Err ==> r == Err::<Identity, PageError>(PageError::Format),
            r matches Ok(id) ==> id.secret_text() == secret@,
            r matches Ok(id) ==> identity_publics_of(secret@) == Some(id.public_texts()),
    {
        match parse_identities(secret.as_str()) {
            Some((keys, publics)) => {
                proof {
                    lemma_texts_index(publics);
                }
                if publics.len() == 0 {
                    Err(PageError::Format)
                } else {
                    Ok(Identity { secret, keys, publics })
                }
            },
            None => Err(PageError::Format),
        }
    }

    /// A fresh identity with one key drawn from a secure random source.
    pub fn generate() -> (r: Result<Identity, PageError>)
        ensures
            r matches Ok(id) && id.public_texts().len() == 1,
    {
        let secret = generate_secret();
        Self::from_secret(secret)
    }

    /// The secret text of this identity, handed out only on this explicit
    /// request.
    pub fn export_secret(&self) -> (r: String)
        ensures
            r@ == self.secret_text(),
            is_usable_secret(r@),
    {
        proof {
            use_type_invariant(self);
        }
        self.secret.clone()
    }

    /// The public key of each of this identity's keys, in the order of the
    /// secret text.
    pub fn public(&self) -> (r: Vec<String>)
        ensures
            texts(r) == self.public_texts(),
            identity_publics_of(self.secret_text()) == Some(texts(r)),
            r@.len() > 0,
            forall|i: int| 0 <= i < r@.len() ==> is_public_text(#[trigger] r@[i]@),
    {
        proof {
            use_type_invariant(self);
        }
        let mut out: Vec<String> = Vec::new();
        let mut i: usize = 0;
        while i < self.publics.len()
            invariant
                i <= self.publics@.len(),
                out@.len() == i,
                forall|j: int| 0 <= j < i ==> #[trigger] out@[j]@ == self.publics@[j]@,
            decreases self.publics@.len() - i,
        {
            out.push(self.publics[i].clone());
            i = i + 1;
        }
        proof {
            assert(texts(out) =~= texts(self.publics));
            assert forall|j: int| 0 <= j < out@.len() implies is_public_text(#[trigger] out@[j]@) by {
                assert(texts(self.publics)[j] == self.publics@[j]@);
            }
        }
        out
    }

    /// The keys of this identity, in the order of its secret text.
    pub(crate) fn age_keys(&self) -> (r: &Vec<age::x25519::Identity>)
        ensures
            r@.len() == self.public_texts().len(),
    {
        proof {
            use_type_invariant(self);
        }
        &self.keys
    }
}

} // verus!
