//! Endpoint identities: Ed25519 public keys, the secret keys behind them, and the public key file.

use vstd::prelude::*;

use crate::error::{fails_plainly, fails_with, same_error, BridgeError, Failure};
use crate::hex::{
    hex_decodable, hex_decode, hex_decode_ignores_white_space, hex_decode_inverts_encode,
    hex_decoded, hex_encode, hex_encode_inverts_decode, hex_text, hex_text_is_decodable, trim,
    trimmed, trimming_keeps_decodable,
};

verus! {

/// Whether `iroh::EndpointId::from_bytes` accepts these bytes.
pub uninterp spec fn is_endpoint_key(bytes: Seq<u8>) -> bool;

/// The bytes of the public key that belongs to a secret key.
pub uninterp spec fn public_key_bytes(secret: Seq<u8>) -> Seq<u8>;

/// Why bytes are not accepted as a public key.
pub open spec fn bad_key_reason() -> Seq<char> {
    "data is not a valid public key"@
}

/// Calls `iroh::EndpointId::from_bytes`: whether the bytes are accepted depends on them alone, and
/// an identifier that was accepted keeps its bytes. The error's text is always the same.
#[verifier::external_body]
fn endpoint_key_from_bytes(bytes: &[u8; 32]) -> (key: Result<[u8; 32], String>)
    ensures
        match key {
            Ok(kept) => is_endpoint_key(bytes@) && kept@ == bytes@,
            Err(reason) => !is_endpoint_key(bytes@) && reason@ == bad_key_reason(),
        },
{
    iroh::EndpointId::from_bytes(bytes).map(|id| *id.as_bytes()).map_err(|e| e.to_string())
}

/// Calls `iroh::SecretKey::public` on the key with these bytes. The result depends on them alone,
/// and `iroh::EndpointId::from_bytes` never fails for the bytes of a public key.
#[verifier::external_body]
fn public_key_of_secret(secret: &[u8; 32]) -> (key: [u8; 32])
    ensures
        key@ == public_key_bytes(secret@),
        is_endpoint_key(key@),
{
    *iroh::SecretKey::from_bytes(secret).public().as_bytes()
}

/// Calls `iroh::SecretKey::generate`. The bytes are random: any may come.
#[verifier::external_body]
fn generate_secret_key() -> [u8; 32] {
    iroh::SecretKey::generate().to_bytes()
}

/// The identifier of an endpoint: the bytes of its public key.
#[derive(Debug, Clone, Copy, PartialEq, Eq)]
pub struct EndpointId {
    bytes: [u8; 32],
}

impl View for EndpointId {
    type V = Seq<u8>;

    closed spec fn view(&self) -> Seq<u8> {
        self.bytes@
    }
}

impl EndpointId {
    /// Every identifier is a public key.
    #[verifier::type_invariant]
    spec fn well_formed(&self) -> bool {
        is_endpoint_key(self.bytes@)
    }

    /// The identifier with these bytes, or the reason why they are no public key.
    pub fn from_bytes(bytes: &[u8; 32]) -> (id: Result<EndpointId, String>)
        ensures
            match id {
                Ok(id) => is_endpoint_key(bytes@) && id@ == bytes@,
                Err(reason) => !is_endpoint_key(bytes@) && reason@ == bad_key_reason(),
            },
    {
        match endpoint_key_from_bytes(bytes) {
            Ok(bytes) => Ok(EndpointId { bytes }),
            Err(reason) => Err(reason),
        }
    }

    /// The identifier of the endpoint that holds this secret key.
    pub fn of_secret(secret: &[u8; 32]) -> (id: EndpointId)
        ensures
            id@ == public_key_bytes(secret@),
            is_endpoint_key(id@),
    {
        EndpointId { bytes: public_key_of_secret(secret) }
    }

    /// The bytes of the public key.
    pub fn to_bytes(&self) -> (bytes: [u8; 32])
        ensures
            bytes@ == self@,
            is_endpoint_key(bytes@),
    {
        proof {
            use_type_invariant(self);
        }
        self.bytes
    }
}

/// The secret key of an endpoint when `fresh` is the key that was drawn for it: the configured one
/// where there is one, and the fresh one otherwise.
pub open spec fn picked_secret(configured: Option<[u8; 32]>, fresh: [u8; 32]) -> [u8; 32] {
    match configured {
        Some(bytes) => bytes,
        None => fresh,
    }
}

/// Picks the secret key of an endpoint: the configured one, or the fresh one where none is.
pub fn pick_secret(configured: Option<[u8; 32]>, fresh: [u8; 32]) -> (secret: [u8; 32])
    ensures
        secret == picked_secret(configured, fresh),
{
    match configured {
        Some(bytes) => bytes,
        None => fresh,
    }
}

/// The secret key of an endpoint: the configured one, or a fresh random one where none is. Of the
/// random one nothing can be said beforehand: any may come.
pub fn endpoint_secret(configured: Option<[u8; 32]>) -> (secret: [u8; 32])
    ensures
        configured matches Some(bytes) ==> secret == bytes,
{
    match configured {
        Some(bytes) => bytes,
        None => pick_secret(None, generate_secret_key()),
    }
}

/// Whether `found` is what a public key file with this text comes to.
pub open spec fn identity_read(
    text: Seq<char>,
    found: Result<Option<EndpointId>, BridgeError>,
) -> bool {
    match found {
        Ok(None) => false,
        Ok(Some(id)) => {
            &&& hex_decoded(text) == Ok::<Seq<u8>, Seq<char>>(id@)
            &&& id@.len() == 32
            &&& is_endpoint_key(id@)
        },
        Err(error) => match hex_decoded(text) {
            Err(fault) => fails_with(error, Failure::InvalidPubkey, fault),
            Ok(bytes) => if bytes.len() != 32 {
                fails_plainly(error, Failure::InvalidPubkeyLength)
            } else {
                !is_endpoint_key(bytes) && fails_with(
                    error,
                    Failure::InvalidPublicKeyBytes,
                    bad_key_reason(),
                )
            },
        },
    }
}

/// Whether `found` is the identity that a public key file and a stored secret key come to. The
/// public key file is read where there is one. Without it the stored key gives the identifier, and
/// only where there is neither has no identity been created.
pub open spec fn identity_found(
    pub_file: Option<Seq<char>>,
    stored_key: Option<Seq<u8>>,
    found: Result<Option<EndpointId>, BridgeError>,
) -> bool {
    match (pub_file, stored_key) {
        (Some(text), _) => identity_read(text, found),
        (None, Some(secret)) => found matches Ok(Some(id)) && id@ == public_key_bytes(secret),
        (None, None) => found matches Ok(None),
    }
}

/// Whether a public key file with this text is read as the identifier with these bytes, and in no
/// other way.
pub open spec fn reads_back(text: Seq<char>, key: Seq<u8>) -> bool {
    forall|found: Result<Option<EndpointId>, BridgeError>| #[trigger]
        identity_read(text, found) ==> (found matches Ok(Some(id)) && id@ == key)
}

/// Law: white space around the digits of a public key file does not matter.
pub proof fn public_key_file_may_have_white_space(
    text: Seq<char>,
    found: Result<Option<EndpointId>, BridgeError>,
)
    ensures
        identity_read(trimmed(text), found) == identity_read(text, found),
{
    hex_decode_ignores_white_space(text);
}

/// Whether two findings are the same.
pub open spec fn same_finding(
    a: Result<Option<EndpointId>, BridgeError>,
    b: Result<Option<EndpointId>, BridgeError>,
) -> bool {
    match (a, b) {
        (Ok(None), Ok(None)) => true,
        (Ok(Some(x)), Ok(Some(y))) => x@ == y@,
        (Err(x), Err(y)) => same_error(x, y),
        _ => false,
    }
}

/// Law: a public key file and a stored key decide what is found.
pub proof fn identity_is_determined(
    pub_file: Option<Seq<char>>,
    stored_key: Option<Seq<u8>>,
    a: Result<Option<EndpointId>, BridgeError>,
    b: Result<Option<EndpointId>, BridgeError>,
)
    requires
        identity_found(pub_file, stored_key, a),
        identity_found(pub_file, stored_key, b),
    ensures
        same_finding(a, b),
{
    match (a, b) {
        (Err(x), Err(y)) => {
            assert(x.cause@ =~= y.cause@);
        },
        _ => {},
    }
}

/// Law: that nothing is found means that no identity has been created: there is neither a public
/// key file nor a stored key.
pub proof fn nothing_found_means_nothing_created(
    pub_file: Option<Seq<char>>,
    stored_key: Option<Seq<u8>>,
    found: Result<Option<EndpointId>, BridgeError>,
)
    requires
        identity_found(pub_file, stored_key, found),
    ensures
        found matches Ok(None) <==> pub_file is None && stored_key is None,
{
}

/// Law: a lost public key file does not change the identity. What is found from the stored key is
/// what is found from a public key file that reads back as its identifier.
pub proof fn lost_public_file_changes_nothing(
    text: Seq<char>,
    secret: Seq<u8>,
    with_file: Result<Option<EndpointId>, BridgeError>,
    without: Result<Option<EndpointId>, BridgeError>,
)
    requires
        reads_back(text, public_key_bytes(secret)),
        identity_found(Some(text), Some(secret), with_file),
        identity_found(None, Some(secret), without),
    ensures
        same_finding(with_file, without),
{
    assert(identity_read(text, with_file));
}

/// The contents of an optional text.
pub open spec fn text_of(text: Option<&str>) -> Option<Seq<char>> {
    match text {
        Some(text) => Some(text@),
        None => None,
    }
}

/// The bytes of an optional secret key.
pub open spec fn key_of(secret: Option<&[u8; 32]>) -> Option<Seq<u8>> {
    match secret {
        Some(secret) => Some(secret@),
        None => None,
    }
}

/// Thirty-two bytes as an array.
fn key_array(bytes: &Vec<u8>) -> (key: [u8; 32])
    requires
        bytes@.len() == 32,
    ensures
        key@ == bytes@,
{
    let mut key = [0u8; 32];
    for i in 0..32usize
        invariant
            bytes@.len() == 32,
            forall|j: int| 0 <= j < i ==> key@[j] == bytes@[j],
    {
        key[i] = bytes[i];
    }
    assert(key@ =~= bytes@);
    key
}

/// What a checked public key makes of a public key file.
pub fn identity_of_checked_key(checked: Result<EndpointId, String>) -> (found: Result<
    Option<EndpointId>,
    BridgeError,
>)
    ensures
        match checked {
            Ok(id) => found == Ok::<Option<EndpointId>, BridgeError>(Some(id)),
            Err(reason) => found matches Err(error) && fails_with(
                error,
                Failure::InvalidPublicKeyBytes,
                reason@,
            ),
        },
{
    match checked {
        Ok(id) => Ok(Some(id)),
        Err(cause) => Err(
            BridgeError { failure: Failure::InvalidPublicKeyBytes, cause, kind: None },
        ),
    }
}

/// The identifier of the persisted identity, given the text of its public key file, or `None` where
/// there is no such file, and the stored secret key, or `None` where no key has been created. The
/// stored key counts only where there is no public key file.
pub fn load_identity_public_key(
    pub_file: Option<&str>,
    stored_key: Option<&[u8; 32]>,
) -> (found: Result<Option<EndpointId>, BridgeError>)
    requires
        pub_file matches Some(text) ==> hex_decodable(text@),
    ensures
        identity_found(text_of(pub_file), key_of(stored_key), found),
        pub_file matches Some(text) ==> identity_read(text@, found),
        pub_file is None ==> match stored_key {
            Some(secret) => found matches Ok(Some(id)) && id@ == public_key_bytes(secret@),
            None => found matches Ok(None),
        },
{
    let hex_str = match pub_file {
        Some(text) => text,
        None => {
            return match stored_key {
                Some(secret) => Ok(Some(EndpointId::of_secret(secret))),
                None => Ok(None),
            };
        },
    };
    proof {
        hex_decode_ignores_white_space(hex_str@);
        trimming_keeps_decodable(hex_str@);
    }
    let bytes = match hex_decode(trim(hex_str)) {
        Ok(bytes) => bytes,
        Err(cause) => {
            return Err(BridgeError { failure: Failure::InvalidPubkey, cause, kind: None });
        },
    };
    if bytes.len() != 32 {
        return Err(BridgeError::plain(Failure::InvalidPubkeyLength));
    }
    identity_of_checked_key(EndpointId::from_bytes(&key_array(&bytes)))
}

/// The text of the public key file that belongs to a secret key. Read back, it gives the
/// identifier of the endpoint that holds the secret key.
pub fn public_key_text(secret: &[u8; 32]) -> (text: String)
    ensures
        text@ == hex_text(public_key_bytes(secret@)),
        hex_decodable(text@),
        reads_back(text@, public_key_bytes(secret@)),
{
    let id = EndpointId::of_secret(secret);
    let bytes = id.to_bytes();
    proof {
        hex_decode_inverts_encode(bytes@);
        hex_text_is_decodable(bytes@);
    }
    hex_encode(bytes.as_slice())
}

/// Law: a public key file gives an identifier exactly where it holds, but for white space around
/// them, the digits of a public key, and then it gives that key.
pub proof fn public_key_file_holds_the_key_in_hex(
    text: Seq<char>,
    key: Seq<u8>,
    found: Result<Option<EndpointId>, BridgeError>,
)
    requires
        identity_read(text, found),
    ensures
        !(found matches Ok(None)),
        found matches Ok(Some(id)) ==> id@.len() == 32 && is_endpoint_key(id@) && trimmed(text)
            == hex_text(id@),
        key.len() == 32 && is_endpoint_key(key) && trimmed(text) == hex_text(key) ==> (
        found matches Ok(Some(id)) && id@ == key),
{
    if let Ok(Some(id)) = found {
        hex_encode_inverts_decode(text, id@);
    }
    if trimmed(text) == hex_text(key) {
        hex_decode_ignores_white_space(text);
        hex_decode_inverts_encode(key);
    }
}

/// Law: a public key file that gives no identifier gives the reason. What is no hexadecimal text is
/// refused with the fault in it, then what is not thirty-two bytes, then what is no public key.
pub proof fn bad_public_key_file_is_refused(
    text: Seq<char>,
    found: Result<Option<EndpointId>, BridgeError>,
)
    requires
        identity_read(text, found),
    ensures
        match hex_decoded(text) {
            Err(fault) => found matches Err(error) && error.failure == Failure::InvalidPubkey
                && error.cause@ == fault && error.kind is None,
            Ok(bytes) => if bytes.len() != 32 {
                found matches Err(error) && error.failure == Failure::InvalidPubkeyLength
                    && error.cause@.len() == 0 && error.kind is None
            } else if !is_endpoint_key(bytes) {
                found matches Err(error) && error.failure == Failure::InvalidPublicKeyBytes
                    && error.cause@ == "data is not a valid public key"@ && error.kind is None
            } else {
                found matches Ok(Some(id)) && id@ == bytes
            },
        },
{
}

/// Law: a stored key counts only where there is no public key file, and then it gives the id that
/// belongs to it.
pub proof fn stored_key_counts_without_a_public_file(
    pub_file: Option<Seq<char>>,
    secret: Seq<u8>,
    other: Option<Seq<u8>>,
    found: Result<Option<EndpointId>, BridgeError>,
)
    requires
        identity_found(pub_file, Some(secret), found),
    ensures
        match pub_file {
            Some(text) => identity_read(text, found) && identity_found(pub_file, other, found),
            None => found matches Ok(Some(id)) && id@ == public_key_bytes(secret),
        },
{
}

/// Law: a text and a key count as they are given, an empty text too.
pub proof fn what_is_given_counts(text: &str, secret: &[u8; 32])
    ensures
        text_of(Some(text)) == Some(text@),
        text_of(None) is None,
        key_of(Some(secret)) == Some(secret@),
        key_of(None) is None,
{
}

/// Law: a configured key is the one that is used, whatever was drawn, and the drawn key is used
/// only where none is configured.
pub proof fn configured_key_comes_first(configured: [u8; 32], fresh: [u8; 32])
    ensures
        picked_secret(Some(configured), fresh) == configured,
        picked_secret(None, fresh) == fresh,
{
}

} // verus!
