use vstd::prelude::*;

use crate::error::PageError;

verus! {

/// How a ciphertext was made: to a set of public keys, or to one passphrase.
#[derive(Clone, Copy, Debug, PartialEq, Eq, Structural)]
pub enum Mode {
    Recipients,
    Passphrase,
}

/// Exactly one kind of key material: keys of some kind, or a passphrase.
pub enum Credential<K> {
    Keys(Vec<K>),
    Passphrase(String),
}

impl<K> Credential<K> {
    /// The mode of ciphertext that this credential is meant for.
    pub open spec fn mode_spec(&self) -> Mode {
        match self {
            Credential::Keys(_) => Mode::Recipients,
            Credential::Passphrase(_) => Mode::Passphrase,
        }
    }

    pub fn mode(&self) -> (r: Mode)
        ensures
            r == self.mode_spec(),
    {
        match self {
            Credential::Keys(_) => Mode::Recipients,
            Credential::Passphrase(_) => Mode::Passphrase,
        }
    }
}

/// Whether a pair of optional arguments names exactly one kind of credential.
pub open spec fn exactly_one<K>(keys: Option<Vec<K>>, passphrase: Option<String>) -> bool {
    keys.is_some() != passphrase.is_some()
}

/// Turns two optional arguments into one credential. Giving both, or
/// neither, is a usage error.
pub fn select_credential<K>(keys: Option<Vec<K>>, passphrase: Option<String>) -> (r: Result<
    Credential<K>,
    PageError,
>)
    ensures
        r is Ok <==> exactly_one(keys, passphrase),
        r is Err ==> r == Err::<Credential<K>, PageError>(PageError::Usage),
        r matches Ok(c) ==> match c {
            Credential::Keys(ks) => keys == Some(ks) && passphrase.is_none(),
            Credential::Passphrase(p) => passphrase == Some(p) && keys.is_none(),
        },
{
    match (keys, passphrase) {
        (Some(ks), None) => Ok(Credential::Keys(ks)),
        (None, Some(p)) => Ok(Credential::Passphrase(p)),
        _ => Err(PageError::Usage),
    }
}

} // verus!
