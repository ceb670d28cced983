use vstd::prelude::*;

use crate::backend::{
    canonical_recipient, canonical_recipient_text, ciphertext_mode, failure_of, header_mode_of, identity_publics_of, is_recipient_text,
    open_with_identities, open_with_passphrase, opened_with, passphrase_plaintext,
    seal_to_recipients, seal_with_passphrase,
};
use crate::credential::{select_credential, Credential, Mode};
use crate::error::{classify, is_trial_error, PageError};
use crate::identity::{is_usable_secret, Identity};

verus! {

/// The texts of a list of strings.
pub open spec fn texts(v: Vec<String>) -> Seq<Seq<char>> {
    v@.map_values(|s: String| s@)
}

/// The texts of an optional list of strings.
pub open spec fn optional_texts(v: Option<Vec<String>>) -> Option<Seq<Seq<char>>> {
    match v {
        Some(ks) => Some(texts(ks)),
        None => None,
    }
}

/// The text of an optional string.
pub open spec fn optional_text(v: Option<String>) -> Option<Seq<char>> {
    match v {
        Some(p) => Some(p@),
        None => None,
    }
}

/// The secret texts of a list of identities.
pub open spec fn secrets_of(ids: Seq<Identity>) -> Seq<Seq<char>> {
    ids.map_values(|id: Identity| id.secret_text())
}

/// Whether a list of secret texts, each a usable identity, holds a key whose
/// public text is among the given public keys.
pub open spec fn opens_for(secrets: Seq<Seq<char>>, keys: Seq<Seq<char>>) -> bool {
    &&& forall|i: int| 0 <= i < secrets.len() ==> is_usable_secret(#[trigger] secrets[i])
    &&& exists|i: int, j: int|
        0 <= i < secrets.len() && 0 <= j < identity_publics_of(secrets[i]).unwrap().len()
            && keys.contains(#[trigger] identity_publics_of(secrets[i]).unwrap()[j])
}

/// Each text of a list of strings is the view of the string at that place.
pub proof fn lemma_texts_index(v: Vec<String>)
    ensures
        texts(v).len() == v@.len(),
        forall|i: int| 0 <= i < v@.len() ==> #[trigger] texts(v)[i] == v@[i]@,
{
}

/// The text forms of the public keys whose point has small order: 0, 1,
/// the two points of order 8, p - 1, p and p + 1, each also with the top bit
/// set, which X25519 ignores. Agreement with such a key gives the all-zero
/// shared secret.
pub open spec fn low_order_texts() -> Seq<Seq<char>> {
    seq![
        "age1qqqqqqqqqqqqqqqqqqqqqqqqqqqqqqqqqqqqqqqqqqqqqqqqqqqq5cu47z"@,
        "age1qqqqqqqqqqqqqqqqqqqqqqqqqqqqqqqqqqqqqqqqqqqqqqqqqzqqsuwj9m"@,
        "age1qyqqqqqqqqqqqqqqqqqqqqqqqqqqqqqqqqqqqqqqqqqqqqqqqqqqj7vrya"@,
        "age1qyqqqqqqqqqqqqqqqqqqqqqqqqqqqqqqqqqqqqqqqqqqqqqqqzqqk67yly"@,
        "age1ur4h5lpmgxu2u9jku0a0r87ydtdqnr0tnsetrlvxvgz3vh6fhqqqzyt4v9"@,
        "age1ur4h5lpmgxu2u9jku0a0r87ydtdqnr0tnsetrlvxvgz3vh6fhzqqxqejhu"@,
        "age1t7wft09r2zxzfvwsk92eeql0tvzyghxytqwgapkcyf8dm5ylz9ts6wm9s8"@,
        "age1t7wft09r2zxzfvwsk92eeql0tvzyghxytqwgapkcyf8dm5ylz8ts72fzt7"@,
        "age1anlllllllllllllllllllllllllllllllllllllllllllllllals4n2t7m"@,
        "age1anllllllllllllllllllllllllllllllllllllllllllllllllls3hcv9z"@,
        "age1ahlllllllllllllllllllllllllllllllllllllllllllllllalsn46ayy"@,
        "age1ahlllllllllllllllllllllllllllllllllllllllllllllllllsh3g6la"@,
        "age1amlllllllllllllllllllllllllllllllllllllllllllllllalselrwrv"@,
        "age1amlllllllllllllllllllllllllllllllllllllllllllllllllsam3fc4"@,
    ]
}

/// Whether a text is a public key whose point is not of small order.
pub open spec fn is_acceptable_key(text: Seq<char>) -> bool {
    is_recipient_text(text) && !low_order_texts().contains(canonical_recipient_text(text))
}

/// Whether a text is a public key in its own canonical form, of a point that
/// is not of small order: what an identity hands out.
pub open spec fn is_public_text(text: Seq<char>) -> bool {
    is_acceptable_key(text) && canonical_recipient_text(text) == text
}

/// The canonical forms of a list of public-key texts.
pub open spec fn canonical_keys(keys: Seq<Seq<char>>) -> Seq<Seq<char>> {
    keys.map_values(|k: Seq<char>| canonical_recipient_text(k))
}

/// Whether every text of a list is an acceptable public key.
pub open spec fn all_acceptable_keys(keys: Seq<Seq<char>>) -> bool {
    forall|i: int| 0 <= i < keys.len() ==> is_acceptable_key(#[trigger] keys[i])
}

/// Whether every text of a list is a canonical, acceptable public key.
pub open spec fn all_public_texts(keys: Seq<Seq<char>>) -> bool {
    forall|i: int| 0 <= i < keys.len() ==> is_public_text(#[trigger] keys[i])
}

/// Whether two texts are equal.
fn same_text(a: &str, b: &str) -> (r: bool)
    ensures
        r == (a@ == b@),
{
    let n = a.unicode_len();
    if n != b.unicode_len() {
        return false;
    }
    let mut i: usize = 0;
    while i < n
        invariant
            n == a@.len(),
            n == b@.len(),
            i <= n,
            forall|j: int| 0 <= j < i ==> a@[j] == b@[j],
        decreases n - i,
    {
        if a.get_char(i) != b.get_char(i) {
            return false;
        }
        i = i + 1;
    }
    assert(a@ =~= b@);
    true
}

/// Whether a canonical public-key text is that of a point of small order.
fn is_low_order(text: &str) -> (r: bool)
    ensures
        r == low_order_texts().contains(text@),
{
    let list: Vec<&str> = vec![
        "age1qqqqqqqqqqqqqqqqqqqqqqqqqqqqqqqqqqqqqqqqqqqqqqqqqqqq5cu47z",
        "age1qqqqqqqqqqqqqqqqqqqqqqqqqqqqqqqqqqqqqqqqqqqqqqqqqzqqsuwj9m",
        "age1qyqqqqqqqqqqqqqqqqqqqqqqqqqqqqqqqqqqqqqqqqqqqqqqqqqqj7vrya",
        "age1qyqqqqqqqqqqqqqqqqqqqqqqqqqqqqqqqqqqqqqqqqqqqqqqqzqqk67yly",
        "age1ur4h5lpmgxu2u9jku0a0r87ydtdqnr0tnsetrlvxvgz3vh6fhqqqzyt4v9",
        "age1ur4h5lpmgxu2u9jku0a0r87ydtdqnr0tnsetrlvxvgz3vh6fhzqqxqejhu",
        "age1t7wft09r2zxzfvwsk92eeql0tvzyghxytqwgapkcyf8dm5ylz9ts6wm9s8",
        "age1t7wft09r2zxzfvwsk92eeql0tvzyghxytqwgapkcyf8dm5ylz8ts72fzt7",
        "age1anlllllllllllllllllllllllllllllllllllllllllllllllals4n2t7m",
        "age1anllllllllllllllllllllllllllllllllllllllllllllllllls3hcv9z",
        "age1ahlllllllllllllllllllllllllllllllllllllllllllllllalsn46ayy",
        "age1ahlllllllllllllllllllllllllllllllllllllllllllllllllsh3g6la",
        "age1amlllllllllllllllllllllllllllllllllllllllllllllllalselrwrv",
        "age1amlllllllllllllllllllllllllllllllllllllllllllllllllsam3fc4",
    ];
    assert(list@.map_values(|k: &str| k@) =~= low_order_texts());
    let mut i: usize = 0;
    while i < list.len()
        invariant
            i <= list@.len(),
            list@.map_values(|k: &str| k@) == low_order_texts(),
            forall|j: int| 0 <= j < i ==> low_order_texts()[j] != text@,
        decreases list@.len() - i,
    {
        if same_text(list[i], text) {
            assert(low_order_texts()[i as int] == text@);
            return true;
        }
        i = i + 1;
    }
    false
}

/// Checks every public key of a list: each must parse, and must not be a
/// point of small order.
fn check_keys(keys: &Vec<String>) -> (r: bool)
    ensures
        r == all_acceptable_keys(texts(*keys)),
{
    proof {
        lemma_texts_index(*keys);
    }
    let mut i: usize = 0;
    while i < keys.len()
        invariant
            i <= keys@.len(),
            texts(*keys).len() == keys@.len(),
            forall|j: int| 0 <= j < keys@.len() ==> #[trigger] texts(*keys)[j] == keys@[j]@,
            forall|j: int| 0 <= j < i ==> is_acceptable_key(#[trigger] texts(*keys)[j]),
        decreases keys@.len() - i,
    {
        match canonical_recipient(keys[i].as_str()) {
            Some(c) => {
                if is_low_order(c.as_str()) {
                    assert(!is_acceptable_key(texts(*keys)[i as int]));
                    return false;
                }
            },
            None => {
                assert(!is_acceptable_key(texts(*keys)[i as int]));
                return false;
            },
        }
        i = i + 1;
    }
    true
}


/// The error with which encryption is refused before any cryptography is
/// done, given the public keys (if any) and whether a passphrase was given;
/// `None` where it goes ahead.
pub open spec fn encrypt_refusal(keys: Option<Seq<Seq<char>>>, has_passphrase: bool) -> Option<
    PageError,
> {
    match keys {
        Some(ks) => if has_passphrase || ks.len() == 0 {
            Some(PageError::Usage)
        } else if !all_acceptable_keys(ks) {
            Some(PageError::KeyFormat)
        } else {
            None
        },
        None => if has_passphrase {
            None
        } else {
            Some(PageError::Usage)
        },
    }
}

/// The error with which decryption is refused before any credential is tried,
/// given the ciphertext and which kind of credential was given; `None` where
/// trial decryption goes ahead.
pub open spec fn decrypt_refusal(ciphertext: Seq<u8>, has_keys: bool, has_passphrase: bool) -> Option<
    PageError,
> {
    if has_keys == has_passphrase {
        Some(PageError::Usage)
    } else {
        match header_mode_of(ciphertext) {
            None => Some(PageError::Format),
            Some(m) => if (m == Mode::Recipients) != has_keys {
                Some(PageError::ModeMismatch)
            } else {
                None
            },
        }
    }
}

/// Whether a ciphertext is what encryption returns for the given public keys
/// or passphrase and message: the call went ahead, the header records the
/// mode that was asked for, and the same kind of credential gives the message
/// back. With public keys, every list of identities holding one of them opens
/// it; with a passphrase, that passphrase does wherever it opens it at all.
pub open spec fn sealed_by(
    keys: Option<Seq<Seq<char>>>,
    passphrase: Option<Seq<char>>,
    message: Seq<u8>,
    ciphertext: Seq<u8>,
) -> bool {
    &&& encrypt_refusal(keys, passphrase is Some) is None
    &&& match keys {
        Some(ks) => {
            &&& header_mode_of(ciphertext) == Some(Mode::Recipients)
            &&& forall|secrets: Seq<Seq<char>>|
                opens_for(secrets, canonical_keys(ks)) ==> #[trigger] opened_with(
                    ciphertext,
                    secrets,
                ) == Some(message)
        },
        None => {
            &&& header_mode_of(ciphertext) == Some(Mode::Passphrase)
            &&& passphrase_plaintext(ciphertext, passphrase.unwrap()) == message
        },
    }
}

/// Encrypts a message to a non-empty list of public keys, or to a
/// passphrase: exactly one of the two must be given. The ciphertext's header
/// records which of the two it was made for.
pub fn encrypt(message: &[u8], public_keys: Option<Vec<String>>, passphrase: Option<String>) -> (r:
    Result<Vec<u8>, PageError>)
    ensures
        match encrypt_refusal(optional_texts(public_keys), passphrase is Some) {
            Some(e) => r == Err::<Vec<u8>, PageError>(e),
            None => r is Ok,
        },
        r matches Ok(c) ==> sealed_by(
            optional_texts(public_keys),
            optional_text(passphrase),
            message@,
            c@,
        ),
{
    let credential = match select_credential(public_keys, passphrase) {
        Ok(c) => c,
        Err(e) => return Err(e),
    };
    match credential {
        Credential::Keys(keys) => {
            if keys.len() == 0 {
                return Err(PageError::Usage);
            }
            if !check_keys(&keys) {
                return Err(PageError::KeyFormat);
            }
            proof {
                lemma_texts_index(keys);
                assert forall|i: int| 0 <= i < keys@.len() implies is_acceptable_key(
                    #[trigger] keys@[i]@,
                ) by {
                    assert(texts(keys)[i] == keys@[i]@);
                }
            }
            match seal_to_recipients(&keys, message) {
                Some(c) => Ok(c),
                None => Err(PageError::Output),
            }
        },
        Credential::Passphrase(p) => match seal_with_passphrase(p, message) {
            Some(c) => Ok(c),
            None => Err(PageError::Output),
        },
    }
}

/// Decrypts a ciphertext with a list of candidate identities, or with a
/// passphrase: exactly one of the two must be given, and it must fit the
/// mode the ciphertext was made in. Each identity is tried in turn against
/// every stanza; the header and every payload chunk are authenticated before
/// any plaintext is returned.
pub fn decrypt(message: &[u8], private_keys: Option<Vec<Identity>>, passphrase: Option<String>) -> (r:
    Result<Vec<u8>, PageError>)
    ensures
        match decrypt_refusal(message@, private_keys is Some, passphrase is Some) {
            Some(e) => r == Err::<Vec<u8>, PageError>(e),
            None => r matches Err(e) ==> is_trial_error(e),
        },
        decrypt_refusal(message@, private_keys is Some, passphrase is Some) is None ==> match (
            private_keys,
            passphrase,
        ) {
            (Some(ids), _) => match opened_with(message@, secrets_of(ids@)) {
                Some(p) => r matches Ok(v) && v@ == p,
                None => r is Err,
            },
            (_, Some(p)) => r matches Ok(v) ==> v@ == passphrase_plaintext(message@, p@),
            _ => false,
        },
{
    let credential = match select_credential(private_keys, passphrase) {
        Ok(c) => c,
        Err(e) => return Err(e),
    };
    let mode = match ciphertext_mode(message) {
        Some(m) => m,
        None => return Err(PageError::Format),
    };
    if mode != credential.mode() {
        return Err(PageError::ModeMismatch);
    }
    let opened = match credential {
        Credential::Keys(ids) => open_with_identities(message, &ids),
        Credential::Passphrase(p) => open_with_passphrase(message, p),
    };
    match opened {
        Ok(plain) => Ok(plain),
        Err(e) => Err(classify(failure_of(&e))),
    }
}

/// Encryption and decryption both refuse, with a usage error, a call that
/// gives both key material and a passphrase or gives neither.
pub proof fn lemma_exactly_one_credential(keys: Seq<Seq<char>>, ciphertext: Seq<u8>)
    ensures
        encrypt_refusal(Some(keys), true) == Some(PageError::Usage),
        encrypt_refusal(None, false) == Some(PageError::Usage),
        decrypt_refusal(ciphertext, true, true) == Some(PageError::Usage),
        decrypt_refusal(ciphertext, false, false) == Some(PageError::Usage),
{
}

/// A ciphertext that encryption made to public keys, offered a passphrase,
/// is refused with a mode mismatch: no plaintext comes out.
pub proof fn lemma_passphrase_for_recipient_ciphertext(
    keys: Seq<Seq<char>>,
    message: Seq<u8>,
    ciphertext: Seq<u8>,
)
    requires
        sealed_by(Some(keys), None, message, ciphertext),
    ensures
        decrypt_refusal(ciphertext, false, true) == Some(PageError::ModeMismatch),
{
}

/// A ciphertext that encryption made to public keys, offered identities of
/// which one holds a key among them, passes every check before trial
/// decryption and opens to the message.
pub proof fn lemma_round_trip_recipients(
    keys: Seq<Seq<char>>,
    message: Seq<u8>,
    ciphertext: Seq<u8>,
    secrets: Seq<Seq<char>>,
)
    requires
        sealed_by(Some(keys), None, message, ciphertext),
        opens_for(secrets, canonical_keys(keys)),
    ensures
        decrypt_refusal(ciphertext, true, false) is None,
        opened_with(ciphertext, secrets) == Some(message),
{
}

/// A ciphertext that encryption made to two public keys opens to the message
/// with an identity holding either key alone.
pub proof fn lemma_each_recipient_alone(
    keys: Seq<Seq<char>>,
    message: Seq<u8>,
    ciphertext: Seq<u8>,
    a: Seq<char>,
    b: Seq<char>,
)
    requires
        sealed_by(Some(keys), None, message, ciphertext),
        is_usable_secret(a),
        is_usable_secret(b),
        canonical_keys(keys).contains(identity_publics_of(a).unwrap()[0]),
        canonical_keys(keys).contains(identity_publics_of(b).unwrap()[0]),
    ensures
        opened_with(ciphertext, seq![a]) == Some(message),
        opened_with(ciphertext, seq![b]) == Some(message),
{
    let sa = seq![a];
    let sb = seq![b];
    assert(sa[0] == a);
    assert(sb[0] == b);
    assert(canonical_keys(keys).contains(identity_publics_of(sa[0]).unwrap()[0]));
    assert(canonical_keys(keys).contains(identity_publics_of(sb[0]).unwrap()[0]));
    assert(opens_for(sa, canonical_keys(keys)));
    assert(opens_for(sb, canonical_keys(keys)));
}

/// A ciphertext that encryption made to a passphrase, offered that
/// passphrase, passes every check before trial decryption, and where it
/// opens it gives the message back.
pub proof fn lemma_round_trip_passphrase(passphrase: Seq<char>, message: Seq<u8>, ciphertext: Seq<u8>)
    requires
        sealed_by(None, Some(passphrase), message, ciphertext),
    ensures
        decrypt_refusal(ciphertext, false, true) is None,
        passphrase_plaintext(ciphertext, passphrase) == message,
{
}

/// A non-empty list of public keys such as an identity hands out is accepted
/// by encryption without a passphrase, and every list of identities holding
/// one of them opens what encryption made.
pub proof fn lemma_public_keys_accepted(keys: Seq<Seq<char>>)
    requires
        keys.len() > 0,
        all_public_texts(keys),
    ensures
        encrypt_refusal(Some(keys), false) is None,
        canonical_keys(keys) == keys,
{
    assert(canonical_keys(keys) =~= keys);
}

} // verus!
