//! Looking up the endpoint id of the persisted identity, without creating one.

use vstd::prelude::*;

use crate::error::{fails_with, passes_on, BridgeError, Failure, IoFault};
use crate::hex::{hex_decodable, hex_text};
use crate::identity::{
    key_path, key_step_due, pub_path, stored_secret, KeyProgress, KeyStep, KEY_FILE_NAME,
    PUB_KEY_FILE_NAME, RAW_KEY_LEN,
};
use crate::keys::{
    identity_found, identity_read, load_identity_public_key, public_key_bytes, reads_back,
    same_finding, EndpointId,
};
use crate::paths::UnixPath;

verus! {

/// What is known so far while the endpoint id is looked up. Each step that `next_lookup_step` asks
/// for fills one of the blanks.
#[derive(Debug)]
pub struct LookupProgress {
    /// Whether the public key file exists.
    pub pub_exists: Option<bool>,
    /// The text of the public key file.
    pub pub_text: Option<Result<String, IoFault>>,
    /// Whether the key file exists.
    pub key_exists: Option<bool>,
    /// The length of the key file.
    pub key_len: Option<Result<u64, IoFault>>,
    /// The secret key in a raw key file.
    pub raw_key: Option<Result<[u8; 32], IoFault>>,
    /// The secret key that an encrypted key file gave.
    pub stored_key: Option<Result<[u8; 32], String>>,
}

impl LookupProgress {
    /// Nothing is known yet.
    pub fn new() -> (p: LookupProgress)
        ensures
            p.pub_exists is None && p.pub_text is None && p.key_exists is None,
            p.key_len is None && p.raw_key is None && p.stored_key is None,
    {
        LookupProgress {
            pub_exists: None,
            pub_text: None,
            key_exists: None,
            key_len: None,
            raw_key: None,
            stored_key: None,
        }
    }
}

/// What to do next while the endpoint id is looked up.
#[derive(Debug)]
pub enum LookupStep {
    /// See whether this public key file exists.
    ProbePublicFile(UnixPath),
    /// Read the text of this public key file.
    ReadPublicFile(UnixPath),
    /// See whether this key file exists.
    ProbeKeyFile(UnixPath),
    /// Get the length of this key file.
    MeasureKeyFile(UnixPath),
    /// Read the secret key from this raw key file.
    ReadRawKey(UnixPath),
    /// Load the secret key from the encrypted key file, which is there.
    OpenKeyFile { dir: UnixPath, file_name: &'static str },
    /// It is over.
    Finish(Result<Option<EndpointId>, BridgeError>),
}

/// There is no public key file, but a key file.
pub open spec fn only_key_present(p: LookupProgress) -> bool {
    p.pub_exists == Some(false) && p.key_exists == Some(true)
}

/// There is no public key file, but a raw key file.
pub open spec fn only_raw_present(p: LookupProgress) -> bool {
    only_key_present(p) && (p.key_len matches Some(Ok(len)) && len == RAW_KEY_LEN)
}

/// There is no public key file, but an encrypted key file.
pub open spec fn only_sealed_present(p: LookupProgress) -> bool {
    only_key_present(p) && (p.key_len matches Some(Ok(len)) && len != RAW_KEY_LEN)
}

/// Whether `found` is what is known comes to.
pub open spec fn lookup_over(
    p: LookupProgress,
    found: Result<Option<EndpointId>, BridgeError>,
) -> bool {
    ||| p.pub_exists == Some(true) && (p.pub_text matches Some(Ok(text)) && identity_found(
        Some(text@),
        None,
        found,
    ))
    ||| p.pub_exists == Some(false) && p.key_exists == Some(false) && identity_found(
        None,
        None,
        found,
    )
    ||| only_raw_present(p) && (p.raw_key matches Some(Ok(secret)) && identity_found(
        None,
        Some(secret@),
        found,
    ))
    ||| only_sealed_present(p) && (p.stored_key matches Some(Ok(secret)) && identity_found(
        None,
        Some(secret@),
        found,
    ))
    ||| found matches Err(error) && lookup_failed(p, error)
}

/// A step failed, and with it the whole: `error` says what failed, and the cause.
pub open spec fn lookup_failed(p: LookupProgress, error: BridgeError) -> bool {
    ||| p.pub_exists == Some(true) && (p.pub_text matches Some(Err(fault)) && passes_on(
        error,
        fault,
    ))
    ||| only_key_present(p) && (p.key_len matches Some(Err(fault)) && passes_on(error, fault))
    ||| only_raw_present(p) && (p.raw_key matches Some(Err(fault)) && passes_on(error, fault))
    ||| only_sealed_present(p) && (p.stored_key matches Some(Err(cause)) && fails_with(
        error,
        Failure::LoadKey,
        cause@,
    ))
}

/// When each step of looking up the endpoint id is due. No two steps are due at once.
pub open spec fn lookup_step_due(dir: Seq<u8>, p: LookupProgress, step: LookupStep) -> bool {
    match step {
        LookupStep::ProbePublicFile(path) => p.pub_exists is None && path@ == pub_path(dir),
        LookupStep::ReadPublicFile(path) => {
            &&& p.pub_exists == Some(true)
            &&& p.pub_text is None
            &&& path@ == pub_path(dir)
        },
        LookupStep::ProbeKeyFile(path) => {
            &&& p.pub_exists == Some(false)
            &&& p.key_exists is None
            &&& path@ == key_path(dir)
        },
        LookupStep::MeasureKeyFile(path) => only_key_present(p) && p.key_len is None && path@
            == key_path(dir),
        LookupStep::ReadRawKey(path) => only_raw_present(p) && p.raw_key is None && path@
            == key_path(dir),
        LookupStep::OpenKeyFile { dir: path, file_name } => {
            &&& only_sealed_present(p)
            &&& p.stored_key is None
            &&& path@ == dir
            &&& file_name@ == KEY_FILE_NAME@
        },
        LookupStep::Finish(found) => lookup_over(p, found),
    }
}

/// What to do with a key file where there is no public key file.
fn next_key_file_step(dir: &UnixPath, p: &LookupProgress) -> (step: LookupStep)
    requires
        only_key_present(*p),
    ensures
        lookup_step_due(dir@, *p, step),
{
    let len = match &p.key_len {
        None => {
            return LookupStep::MeasureKeyFile(dir.join(KEY_FILE_NAME));
        },
        Some(Err(fault)) => {
            return LookupStep::Finish(Err(BridgeError::io(fault)));
        },
        Some(Ok(len)) => *len,
    };
    if len == RAW_KEY_LEN {
        match &p.raw_key {
            None => LookupStep::ReadRawKey(dir.join(KEY_FILE_NAME)),
            Some(Err(fault)) => LookupStep::Finish(Err(BridgeError::io(fault))),
            Some(Ok(secret)) => LookupStep::Finish(load_identity_public_key(None, Some(secret))),
        }
    } else {
        match &p.stored_key {
            None => LookupStep::OpenKeyFile { dir: dir.clone(), file_name: KEY_FILE_NAME },
            Some(Err(cause)) => LookupStep::Finish(
                Err(BridgeError::new(Failure::LoadKey, cause.as_str())),
            ),
            Some(Ok(secret)) => LookupStep::Finish(load_identity_public_key(None, Some(secret))),
        }
    }
}

/// What to do next to have the endpoint id of the identity in directory `dir`. The public key file
/// tells it where there is one. Otherwise the key file is read where there is one, raw or
/// encrypted, and its key gives the id. Nothing is written or created.
pub fn next_lookup_step(dir: &UnixPath, p: &LookupProgress) -> (step: LookupStep)
    requires
        p.pub_text matches Some(Ok(text)) ==> hex_decodable(text@),
    ensures
        lookup_step_due(dir@, *p, step),
{
    match p.pub_exists {
        None => LookupStep::ProbePublicFile(dir.join(PUB_KEY_FILE_NAME)),
        Some(true) => match &p.pub_text {
            None => LookupStep::ReadPublicFile(dir.join(PUB_KEY_FILE_NAME)),
            Some(Err(fault)) => LookupStep::Finish(Err(BridgeError::io(fault))),
            Some(Ok(text)) => LookupStep::Finish(
                load_identity_public_key(Some(text.as_str()), None),
            ),
        },
        Some(false) => match p.key_exists {
            None => LookupStep::ProbeKeyFile(dir.join(KEY_FILE_NAME)),
            Some(true) => next_key_file_step(dir, p),
            Some(false) => LookupStep::Finish(load_identity_public_key(None, None)),
        },
    }
}

/// Whether two steps are the same.
pub open spec fn same_lookup_step(a: LookupStep, b: LookupStep) -> bool {
    match (a, b) {
        (LookupStep::ProbePublicFile(x), LookupStep::ProbePublicFile(y)) => x@ == y@,
        (LookupStep::ReadPublicFile(x), LookupStep::ReadPublicFile(y)) => x@ == y@,
        (LookupStep::ProbeKeyFile(x), LookupStep::ProbeKeyFile(y)) => x@ == y@,
        (LookupStep::MeasureKeyFile(x), LookupStep::MeasureKeyFile(y)) => x@ == y@,
        (LookupStep::ReadRawKey(x), LookupStep::ReadRawKey(y)) => x@ == y@,
        (
            LookupStep::OpenKeyFile { dir: d, file_name: f },
            LookupStep::OpenKeyFile { dir: e, file_name: g },
        ) => d@ == e@ && f@ == g@,
        (LookupStep::Finish(x), LookupStep::Finish(y)) => same_finding(x, y),
        _ => false,
    }
}

/// Law: what is known decides the next step of looking up the endpoint id. No two different steps
/// are due at once.
pub proof fn lookup_step_is_determined(
    dir: Seq<u8>,
    p: LookupProgress,
    a: LookupStep,
    b: LookupStep,
)
    requires
        lookup_step_due(dir, p, a),
        lookup_step_due(dir, p, b),
    ensures
        same_lookup_step(a, b),
{
    match (a, b) {
        (LookupStep::Finish(Err(x)), LookupStep::Finish(Err(y))) => {
            assert(x.cause@ =~= y.cause@);
        },
        _ => {},
    }
}

/// Whether `p` holds the answer to what `step` asks for.
pub open spec fn lookup_step_answered(p: LookupProgress, step: LookupStep) -> bool {
    match step {
        LookupStep::ProbePublicFile(_) => p.pub_exists is Some,
        LookupStep::ReadPublicFile(_) => p.pub_text is Some,
        LookupStep::ProbeKeyFile(_) => p.key_exists is Some,
        LookupStep::MeasureKeyFile(_) => p.key_len is Some,
        LookupStep::ReadRawKey(_) => p.raw_key is Some,
        LookupStep::OpenKeyFile { .. } => p.stored_key is Some,
        LookupStep::Finish(_) => false,
    }
}

/// Law: looking up the endpoint id comes to an end. No step is asked for again once it was
/// answered.
pub proof fn lookup_step_is_new(dir: Seq<u8>, p: LookupProgress, step: LookupStep)
    requires
        lookup_step_due(dir, p, step),
    ensures
        !lookup_step_answered(p, step),
{
}

/// Law: looking up the endpoint id creates no key. The encrypted key file, which creates itself
/// where there is none, is opened only where there is one.
pub proof fn lookup_creates_no_key(
    dir: Seq<u8>,
    p: LookupProgress,
    path: UnixPath,
    file_name: &'static str,
)
    requires
        lookup_step_due(dir, p, LookupStep::OpenKeyFile { dir: path, file_name }),
    ensures
        p.key_exists == Some(true),
{
}

/// Law: no endpoint id is found exactly where there is neither a public key file nor a key file:
/// no identity has been created yet.
pub proof fn no_id_means_no_identity(
    dir: Seq<u8>,
    p: LookupProgress,
    found: Result<Option<EndpointId>, BridgeError>,
)
    requires
        lookup_step_due(dir, p, LookupStep::Finish(found)),
    ensures
        found matches Ok(None) <==> p.pub_exists == Some(false) && p.key_exists == Some(false),
{
}

/// Law: an identity that was created is found even where its public key file is missing. After a
/// run that left `secret` in the encrypted key file, well or not, a lookup that finds no public key
/// file but an encrypted key file, and is given the key that was left in it, finds the id of
/// `secret`.
pub proof fn created_identity_is_found_without_its_public_file(
    run: KeyProgress,
    secret: [u8; 32],
    dir: Seq<u8>,
    p: LookupProgress,
    step: LookupStep,
)
    requires
        stored_secret(run) == Some(secret),
        only_sealed_present(p),
        p.stored_key == Some(Ok::<[u8; 32], String>(stored_secret(run)->0)),
        lookup_step_due(dir, p, step),
    ensures
        step matches LookupStep::Finish(Ok(Some(id))) && id@ == public_key_bytes(secret@),
{
}

/// Law: a public key file tells the id where there is one. It is read, and what it says is found,
/// whatever there is besides.
pub proof fn public_file_tells_the_id(dir: Seq<u8>, p: LookupProgress, step: LookupStep)
    requires
        lookup_step_due(dir, p, step),
        p.pub_exists != Some(false),
    ensures
        if p.pub_exists is None {
            step matches LookupStep::ProbePublicFile(path) && path@ == pub_path(dir)
        } else {
            match p.pub_text {
                None => step matches LookupStep::ReadPublicFile(path) && path@ == pub_path(dir),
                Some(Err(fault)) => step matches LookupStep::Finish(Err(error)) && error.failure
                    == Failure::Io && error.cause@ == fault.text@ && error.kind == Some(fault.kind),
                Some(Ok(text)) => step matches LookupStep::Finish(found) && identity_read(
                    text@,
                    found,
                ),
            }
        },
{
}

/// Law: without a public key file the key file tells the id. A file of exactly thirty-two bytes
/// holds the key itself; any other is opened as an encrypted one; and where there is none, no id is
/// found.
pub proof fn key_file_tells_the_id(dir: Seq<u8>, p: LookupProgress, step: LookupStep)
    requires
        lookup_step_due(dir, p, step),
        p.pub_exists == Some(false),
    ensures
        match p.key_exists {
            None => step matches LookupStep::ProbeKeyFile(path) && path@ == key_path(dir),
            Some(false) => step matches LookupStep::Finish(Ok(None)),
            Some(true) => match p.key_len {
                None => step matches LookupStep::MeasureKeyFile(path) && path@ == key_path(dir),
                Some(Err(fault)) => step matches LookupStep::Finish(Err(error)) && error.failure
                    == Failure::Io && error.cause@ == fault.text@ && error.kind == Some(fault.kind),
                Some(Ok(len)) => if len == 32 {
                    match p.raw_key {
                        None => step matches LookupStep::ReadRawKey(path) && path@ == key_path(dir),
                        Some(Err(fault)) => step matches LookupStep::Finish(Err(error))
                            && error.failure == Failure::Io && error.cause@ == fault.text@
                            && error.kind == Some(fault.kind),
                        Some(Ok(secret)) => step matches LookupStep::Finish(Ok(Some(id))) && id@
                            == public_key_bytes(secret@),
                    }
                } else {
                    match p.stored_key {
                        None => step matches LookupStep::OpenKeyFile { dir: path, file_name }
                            && path@ == dir && file_name@ == "iroh_id.key"@,
                        Some(Err(cause)) => step matches LookupStep::Finish(Err(error))
                            && error.failure == Failure::LoadKey && error.cause@ == cause@
                            && error.kind is None,
                        Some(Ok(secret)) => step matches LookupStep::Finish(Ok(Some(id))) && id@
                            == public_key_bytes(secret@),
                    }
                },
            },
        },
{
}

/// Law: a run that created its key leaves a public key file from which its id is found. The text
/// that the run asks to write reads back, as `next_key_step` promises, and a lookup of that file
/// gives the id of the key that the run ends with.
pub proof fn created_identity_is_found_in_its_public_file(
    dir: Seq<u8>,
    writing: KeyProgress,
    path: UnixPath,
    text: String,
    written: KeyProgress,
    secret: [u8; 32],
    p: LookupProgress,
    step: LookupStep,
)
    requires
        writing.key_exists == Some(false),
        key_step_due(dir, writing, KeyStep::WritePublicFile { path, text }),
        reads_back(text@, public_key_bytes(secret@)),
        written.key_exists == Some(false),
        written.stored_key == writing.stored_key,
        key_step_due(dir, written, KeyStep::Finish(Ok(secret))),
        p.pub_exists == Some(true),
        p.pub_text matches Some(Ok(found)) && found@ == text@,
        lookup_step_due(dir, p, step),
    ensures
        written.pub_written matches Some(Ok(_)),
        path@ == pub_path(dir),
        text@ == hex_text(public_key_bytes(secret@)),
        step matches LookupStep::Finish(Ok(Some(id))) && id@ == public_key_bytes(secret@),
{
    public_file_tells_the_id(dir, p, step);
    assert(identity_read(text@, step->Finish_0));
}

} // verus!
