//! The persistent identity key: where it lives, and how it is loaded, migrated or created.

use vstd::prelude::*;
use vstd::string::StringSliceAdditionalSpecFns;
use vstd::utf8::is_ascii_chars_encode_utf8;

use crate::error::{
    fails_plainly, fails_with, passes_on, same_error, BridgeError, Failure, IoFault,
};
use crate::hex::{hex_decodable, hex_text};
use crate::keys::{public_key_bytes, public_key_text, reads_back};
use crate::paths::{joined, UnixPath};

verus! {

/// The directory below the program's configuration where identity keys live.
pub const IROH_KEY_DIR: &'static str = "iroh";

/// Name of the identity key file.
pub const KEY_FILE_NAME: &'static str = "iroh_id.key";

/// Name of the public key file, which holds the endpoint id in hexadecimal.
pub const PUB_KEY_FILE_NAME: &'static str = "iroh_id.pub";

/// The length of a raw key file. Encrypted key files are longer.
pub const RAW_KEY_LEN: u64 = 32;

/// The permissions of the public key file: its owner writes, everybody reads.
pub const PUB_KEY_MODE: u32 = 0o644;

/// The configuration directory below a home directory.
pub open spec fn config_dir(home: Seq<u8>) -> Seq<u8> {
    joined(home, ".config".spec_bytes())
}

/// The identity key directory below a home directory.
pub open spec fn key_dir(home: Seq<u8>) -> Seq<u8> {
    joined(joined(config_dir(home), "herdr".spec_bytes()), IROH_KEY_DIR.spec_bytes())
}

/// The key file in a key directory.
pub open spec fn key_path(dir: Seq<u8>) -> Seq<u8> {
    joined(dir, KEY_FILE_NAME.spec_bytes())
}

/// The public key file in a key directory.
pub open spec fn pub_path(dir: Seq<u8>) -> Seq<u8> {
    joined(dir, PUB_KEY_FILE_NAME.spec_bytes())
}

/// The user's configuration directory, where the home directory is known.
pub fn home_config_dir(home: Option<UnixPath>) -> (dir: Option<UnixPath>)
    ensures
        match home {
            Some(home) => dir matches Some(dir) && dir@ == config_dir(home@),
            None => dir is None,
        },
{
    match home {
        Some(home) => Some(home.join(".config")),
        None => None,
    }
}

/// The directory of the identity key: `~/.config/herdr/iroh`.
pub fn identity_key_dir(home: Option<UnixPath>) -> (dir: Result<UnixPath, BridgeError>)
    ensures
        match home {
            Some(home) => dir matches Ok(dir) && dir@ == key_dir(home@),
            None => dir matches Err(error) && fails_plainly(error, Failure::NoConfigDir),
        },
{
    match home_config_dir(home) {
        Some(config_dir) => Ok(config_dir.join("herdr").join(IROH_KEY_DIR)),
        None => Err(BridgeError::plain(Failure::NoConfigDir)),
    }
}

/// Law: the key directory of a home directory that does not end in a slash is
/// `/.config/herdr/iroh` behind it.
pub proof fn key_dir_spelled_out(home: Seq<u8>)
    requires
        home.len() > 0,
        home.last() != 0x2f,
    ensures
        key_dir(home) == home + "/.config/herdr/iroh".spec_bytes(),
{
    reveal_strlit(".config");
    reveal_strlit("herdr");
    reveal_strlit("iroh");
    reveal_strlit("/.config/herdr/iroh");
    is_ascii_chars_encode_utf8(".config"@);
    is_ascii_chars_encode_utf8("herdr"@);
    is_ascii_chars_encode_utf8("iroh"@);
    is_ascii_chars_encode_utf8("/.config/herdr/iroh"@);
    assert(key_dir(home) =~= home + "/.config/herdr/iroh".spec_bytes());
}

/// Law: the key file and the public key file are two files in the key directory.
pub proof fn key_files_differ(dir: Seq<u8>)
    ensures
        key_path(dir) != pub_path(dir),
        key_path(dir).take(dir.len() as int) == dir,
        pub_path(dir).take(dir.len() as int) == dir,
{
    reveal_strlit("iroh_id.key");
    reveal_strlit("iroh_id.pub");
    is_ascii_chars_encode_utf8(KEY_FILE_NAME@);
    is_ascii_chars_encode_utf8(PUB_KEY_FILE_NAME@);
    assert(key_path(dir).last() == 0x79);
    assert(pub_path(dir).last() == 0x62);
    assert(key_path(dir).take(dir.len() as int) =~= dir);
    assert(pub_path(dir).take(dir.len() as int) =~= dir);
}

/// What is known so far while the identity key is loaded or created. Each step that
/// `next_key_step` asks for fills one of the blanks.
#[derive(Debug)]
pub struct KeyProgress {
    /// Whether the key directory could be created, or was there.
    pub dir_created: Option<Result<(), IoFault>>,
    /// Whether the key file exists.
    pub key_exists: Option<bool>,
    /// The length of the key file.
    pub key_len: Option<Result<u64, IoFault>>,
    /// The secret key in a raw key file.
    pub raw_key: Option<Result<[u8; 32], IoFault>>,
    /// Whether the raw key was moved to the encrypted format.
    pub migrated: Option<Result<(), String>>,
    /// The secret key that the encrypted key file gave, which creates itself where there is none.
    pub stored_key: Option<Result<[u8; 32], String>>,
    /// Whether the public key file exists.
    pub pub_exists: Option<bool>,
    /// Whether the public key file could be written.
    pub pub_written: Option<Result<(), IoFault>>,
    /// Whether the permissions of the public key file were set, or at least tried.
    pub pub_mode_tried: bool,
}

impl KeyProgress {
    /// Nothing is known yet.
    pub fn new() -> (p: KeyProgress)
        ensures
            key_blanks(p) == 9,
    {
        KeyProgress {
            dir_created: None,
            key_exists: None,
            key_len: None,
            raw_key: None,
            migrated: None,
            stored_key: None,
            pub_exists: None,
            pub_written: None,
            pub_mode_tried: false,
        }
    }
}

/// What to do next while the identity key is loaded or created.
#[derive(Debug)]
pub enum KeyStep {
    /// Create this directory and those above it.
    CreateDir(UnixPath),
    /// See whether this key file exists.
    ProbeKeyFile(UnixPath),
    /// Get the length of this key file.
    MeasureKeyFile(UnixPath),
    /// Read the secret key from this raw key file.
    ReadRawKey(UnixPath),
    /// Store this secret key encrypted, in the place of the raw key file.
    MigrateRawKey { dir: UnixPath, file_name: &'static str, secret: [u8; 32] },
    /// Load the secret key from the encrypted key file, or create both.
    OpenKeyFile { dir: UnixPath, file_name: &'static str },
    /// See whether this public key file exists.
    ProbePublicFile(UnixPath),
    /// Write this text to the public key file.
    WritePublicFile { path: UnixPath, text: String },
    /// Set the permissions of the public key file; whether that works does not matter.
    SetPublicMode { path: UnixPath, mode: u32 },
    /// It is over.
    Finish(Result<[u8; 32], BridgeError>),
}

/// The key directory is there.
pub open spec fn dir_ready(p: KeyProgress) -> bool {
    p.dir_created matches Some(Ok(_))
}

/// There is no key file.
pub open spec fn key_absent(p: KeyProgress) -> bool {
    dir_ready(p) && p.key_exists == Some(false)
}

/// There is a key file.
pub open spec fn key_present(p: KeyProgress) -> bool {
    dir_ready(p) && p.key_exists == Some(true)
}

/// There is a raw key file.
pub open spec fn raw_present(p: KeyProgress) -> bool {
    key_present(p) && (p.key_len matches Some(Ok(len)) && len == RAW_KEY_LEN)
}

/// There is an encrypted key file.
pub open spec fn sealed_present(p: KeyProgress) -> bool {
    key_present(p) && (p.key_len matches Some(Ok(len)) && len != RAW_KEY_LEN)
}

/// The raw key file was read.
pub open spec fn raw_read(p: KeyProgress) -> bool {
    raw_present(p) && p.raw_key matches Some(Ok(_))
}

/// The raw key is stored encrypted.
pub open spec fn raw_migrated(p: KeyProgress) -> bool {
    raw_read(p) && p.migrated matches Some(Ok(_))
}

/// The encrypted key file gave the key: one that was there, or a new one.
pub open spec fn key_opened(p: KeyProgress) -> bool {
    (sealed_present(p) || key_absent(p)) && p.stored_key matches Some(Ok(_))
}

/// The public key file has to be written: the key is new, or it was migrated and has no such file.
pub open spec fn public_due(p: KeyProgress) -> bool {
    ||| raw_migrated(p) && p.pub_exists == Some(false)
    ||| key_absent(p) && key_opened(p)
}

/// The secret key at hand.
pub open spec fn secret_of(p: KeyProgress) -> [u8; 32] {
    if raw_present(p) {
        p.raw_key->0->Ok_0
    } else {
        p.stored_key->0->Ok_0
    }
}

/// Nothing is left to do.
pub open spec fn key_settled(p: KeyProgress) -> bool {
    ||| raw_migrated(p) && p.pub_exists == Some(true)
    ||| sealed_present(p) && key_opened(p)
    ||| public_due(p) && (p.pub_written matches Some(Ok(_))) && p.pub_mode_tried
}

/// A step failed, and with it the whole: `error` says what failed, and the cause.
pub open spec fn key_failed(p: KeyProgress, error: BridgeError) -> bool {
    ||| p.dir_created matches Some(Err(fault)) && passes_on(error, fault)
    ||| key_present(p) && (p.key_len matches Some(Err(fault)) && passes_on(error, fault))
    ||| raw_present(p) && (p.raw_key matches Some(Err(fault)) && passes_on(error, fault))
    ||| raw_read(p) && (p.migrated matches Some(Err(cause)) && fails_with(
        error,
        Failure::MigrateKey,
        cause@,
    ))
    ||| sealed_present(p) && (p.stored_key matches Some(Err(cause)) && fails_with(
        error,
        Failure::LoadKey,
        cause@,
    ))
    ||| key_absent(p) && (p.stored_key matches Some(Err(cause)) && fails_with(
        error,
        Failure::CreateKey,
        cause@,
    ))
    ||| public_due(p) && (p.pub_written matches Some(Err(fault)) && passes_on(error, fault))
}

/// When each step is due. No two steps are due at once.
pub open spec fn key_step_due(dir: Seq<u8>, p: KeyProgress, step: KeyStep) -> bool {
    match step {
        KeyStep::CreateDir(path) => p.dir_created is None && path@ == dir,
        KeyStep::ProbeKeyFile(path) => dir_ready(p) && p.key_exists is None && path@ == key_path(
            dir,
        ),
        KeyStep::MeasureKeyFile(path) => key_present(p) && p.key_len is None && path@ == key_path(
            dir,
        ),
        KeyStep::ReadRawKey(path) => raw_present(p) && p.raw_key is None && path@ == key_path(dir),
        KeyStep::MigrateRawKey { dir: path, file_name, secret } => {
            &&& raw_read(p)
            &&& p.migrated is None
            &&& path@ == dir
            &&& file_name@ == KEY_FILE_NAME@
            &&& secret == secret_of(p)
        },
        KeyStep::OpenKeyFile { dir: path, file_name } => {
            &&& sealed_present(p) || key_absent(p)
            &&& p.stored_key is None
            &&& path@ == dir
            &&& file_name@ == KEY_FILE_NAME@
        },
        KeyStep::ProbePublicFile(path) => raw_migrated(p) && p.pub_exists is None && path@
            == pub_path(dir),
        KeyStep::WritePublicFile { path, text } => {
            &&& public_due(p)
            &&& p.pub_written is None
            &&& path@ == pub_path(dir)
            &&& text@ == hex_text(public_key_bytes(secret_of(p)@))
        },
        KeyStep::SetPublicMode { path, mode } => {
            &&& public_due(p)
            &&& p.pub_written matches Some(Ok(_))
            &&& !p.pub_mode_tried
            &&& path@ == pub_path(dir)
            &&& mode == PUB_KEY_MODE
        },
        KeyStep::Finish(Ok(secret)) => key_settled(p) && secret == secret_of(p),
        KeyStep::Finish(Err(error)) => key_failed(p, error),
    }
}

/// Writing the public key file of `secret`, or setting its permissions, or the end.
fn next_public_step(dir: &UnixPath, p: &KeyProgress, secret: [u8; 32]) -> (step: KeyStep)
    requires
        public_due(*p),
        secret == secret_of(*p),
    ensures
        key_step_due(dir@, *p, step),
        step matches KeyStep::WritePublicFile { text, .. } ==> hex_decodable(text@) && reads_back(
            text@,
            public_key_bytes(secret_of(*p)@),
        ),
{
    match &p.pub_written {
        None => KeyStep::WritePublicFile {
            path: dir.join(PUB_KEY_FILE_NAME),
            text: public_key_text(&secret),
        },
        Some(Err(fault)) => KeyStep::Finish(Err(BridgeError::io(fault))),
        Some(Ok(_)) => if p.pub_mode_tried {
            KeyStep::Finish(Ok(secret))
        } else {
            KeyStep::SetPublicMode { path: dir.join(PUB_KEY_FILE_NAME), mode: PUB_KEY_MODE }
        },
    }
}

/// What to do with a raw key file.
fn next_raw_step(dir: &UnixPath, p: &KeyProgress) -> (step: KeyStep)
    requires
        raw_present(*p),
    ensures
        key_step_due(dir@, *p, step),
        step matches KeyStep::WritePublicFile { text, .. } ==> hex_decodable(text@) && reads_back(
            text@,
            public_key_bytes(secret_of(*p)@),
        ),
{
    let secret = match &p.raw_key {
        None => {
            return KeyStep::ReadRawKey(dir.join(KEY_FILE_NAME));
        },
        Some(Err(fault)) => {
            return KeyStep::Finish(Err(BridgeError::io(fault)));
        },
        Some(Ok(secret)) => *secret,
    };
    match &p.migrated {
        None => {
            return KeyStep::MigrateRawKey { dir: dir.clone(), file_name: KEY_FILE_NAME, secret };
        },
        Some(Err(cause)) => {
            return KeyStep::Finish(Err(BridgeError::new(Failure::MigrateKey, cause.as_str())));
        },
        Some(Ok(_)) => {},
    }
    match p.pub_exists {
        None => KeyStep::ProbePublicFile(dir.join(PUB_KEY_FILE_NAME)),
        Some(true) => KeyStep::Finish(Ok(secret)),
        Some(false) => next_public_step(dir, p, secret),
    }
}

/// What to do next to have the identity key in directory `dir`. A raw key file is migrated to the
/// encrypted format; an encrypted one is loaded; where there is none a new key is created. A new
/// key, and a migrated one that lacks it, gets a public key file, from which
/// `load_identity_public_key` reads the identifier of the endpoint with this key.
pub fn next_key_step(dir: &UnixPath, p: &KeyProgress) -> (step: KeyStep)
    ensures
        key_step_due(dir@, *p, step),
        step matches KeyStep::WritePublicFile { text, .. } ==> hex_decodable(text@) && reads_back(
            text@,
            public_key_bytes(secret_of(*p)@),
        ),
{
    match &p.dir_created {
        None => {
            return KeyStep::CreateDir(dir.clone());
        },
        Some(Err(fault)) => {
            return KeyStep::Finish(Err(BridgeError::io(fault)));
        },
        Some(Ok(_)) => {},
    }
    let present = match p.key_exists {
        None => {
            return KeyStep::ProbeKeyFile(dir.join(KEY_FILE_NAME));
        },
        Some(present) => present,
    };
    if present {
        match &p.key_len {
            None => {
                return KeyStep::MeasureKeyFile(dir.join(KEY_FILE_NAME));
            },
            Some(Err(fault)) => {
                return KeyStep::Finish(Err(BridgeError::io(fault)));
            },
            Some(Ok(len)) => if *len == RAW_KEY_LEN {
                return next_raw_step(dir, p);
            },
        }
    }
    match &p.stored_key {
        None => KeyStep::OpenKeyFile { dir: dir.clone(), file_name: KEY_FILE_NAME },
        Some(Err(cause)) => if present {
            KeyStep::Finish(Err(BridgeError::new(Failure::LoadKey, cause.as_str())))
        } else {
            KeyStep::Finish(Err(BridgeError::new(Failure::CreateKey, cause.as_str())))
        },
        Some(Ok(secret)) => if present {
            KeyStep::Finish(Ok(*secret))
        } else {
            next_public_step(dir, p, *secret)
        },
    }
}

/// Whether two steps are the same.
pub open spec fn same_key_step(a: KeyStep, b: KeyStep) -> bool {
    match (a, b) {
        (KeyStep::CreateDir(x), KeyStep::CreateDir(y)) => x@ == y@,
        (KeyStep::ProbeKeyFile(x), KeyStep::ProbeKeyFile(y)) => x@ == y@,
        (KeyStep::MeasureKeyFile(x), KeyStep::MeasureKeyFile(y)) => x@ == y@,
        (KeyStep::ReadRawKey(x), KeyStep::ReadRawKey(y)) => x@ == y@,
        (
            KeyStep::MigrateRawKey { dir: d, file_name: f, secret: x },
            KeyStep::MigrateRawKey { dir: e, file_name: g, secret: y },
        ) => d@ == e@ && f@ == g@ && x == y,
        (
            KeyStep::OpenKeyFile { dir: d, file_name: f },
            KeyStep::OpenKeyFile { dir: e, file_name: g },
        ) => d@ == e@ && f@ == g@,
        (KeyStep::ProbePublicFile(x), KeyStep::ProbePublicFile(y)) => x@ == y@,
        (
            KeyStep::WritePublicFile { path: d, text: x },
            KeyStep::WritePublicFile { path: e, text: y },
        ) => d@ == e@ && x@ == y@,
        (
            KeyStep::SetPublicMode { path: d, mode: x },
            KeyStep::SetPublicMode { path: e, mode: y },
        ) => d@ == e@ && x == y,
        (KeyStep::Finish(Ok(x)), KeyStep::Finish(Ok(y))) => x == y,
        (KeyStep::Finish(Err(x)), KeyStep::Finish(Err(y))) => same_error(x, y),
        _ => false,
    }
}

/// Whether `q` knows what `p` knows, and perhaps more.
pub open spec fn knows_more(p: KeyProgress, q: KeyProgress) -> bool {
    &&& p.dir_created is Some ==> q.dir_created == p.dir_created
    &&& p.key_exists is Some ==> q.key_exists == p.key_exists
    &&& p.key_len is Some ==> q.key_len == p.key_len
    &&& p.raw_key is Some ==> q.raw_key == p.raw_key
    &&& p.migrated is Some ==> q.migrated == p.migrated
    &&& p.stored_key is Some ==> q.stored_key == p.stored_key
    &&& p.pub_exists is Some ==> q.pub_exists == p.pub_exists
    &&& p.pub_written is Some ==> q.pub_written == p.pub_written
    &&& p.pub_mode_tried ==> q.pub_mode_tried
}

/// Whether `q` answers what `step` asks for.
pub open spec fn key_step_answered(q: KeyProgress, step: KeyStep) -> bool {
    match step {
        KeyStep::CreateDir(_) => q.dir_created is Some,
        KeyStep::ProbeKeyFile(_) => q.key_exists is Some,
        KeyStep::MeasureKeyFile(_) => q.key_len is Some,
        KeyStep::ReadRawKey(_) => q.raw_key is Some,
        KeyStep::MigrateRawKey { .. } => q.migrated is Some,
        KeyStep::OpenKeyFile { .. } => q.stored_key is Some,
        KeyStep::ProbePublicFile(_) => q.pub_exists is Some,
        KeyStep::WritePublicFile { .. } => q.pub_written is Some,
        KeyStep::SetPublicMode { .. } => q.pub_mode_tried,
        KeyStep::Finish(_) => true,
    }
}

/// One for a blank.
pub open spec fn blank(known: bool) -> nat {
    if known {
        0
    } else {
        1
    }
}

/// How many blanks are left.
pub open spec fn key_blanks(p: KeyProgress) -> nat {
    blank(p.dir_created is Some) + blank(p.key_exists is Some) + blank(p.key_len is Some) + blank(
        p.raw_key is Some,
    ) + blank(p.migrated is Some) + blank(p.stored_key is Some) + blank(p.pub_exists is Some)
        + blank(p.pub_written is Some) + blank(p.pub_mode_tried)
}

/// Law: what is known decides the next step. No two different steps are due at once.
pub proof fn key_step_is_determined(dir: Seq<u8>, p: KeyProgress, a: KeyStep, b: KeyStep)
    requires
        key_step_due(dir, p, a),
        key_step_due(dir, p, b),
    ensures
        same_key_step(a, b),
{
}

/// Law: every step but the last asks for something that is not known yet, so that answering the
/// steps comes to an end.
pub proof fn key_steps_come_to_an_end(dir: Seq<u8>, p: KeyProgress, step: KeyStep, q: KeyProgress)
    requires
        key_step_due(dir, p, step),
        !(step is Finish),
        knows_more(p, q),
        key_step_answered(q, step),
    ensures
        key_blanks(q) < key_blanks(p),
{
}

/// Law: the outcome is final. Whatever else becomes known does not change it.
pub proof fn key_outcome_is_final(dir: Seq<u8>, p: KeyProgress, step: KeyStep, q: KeyProgress)
    requires
        key_step_due(dir, p, step),
        step is Finish,
        knows_more(p, q),
    ensures
        key_step_due(dir, q, step),
{
}

/// Law: the outcome depends on what there is to know, and not on what was asked first. Two runs
/// that are told the same end in the same way.
pub proof fn key_outcome_depends_on_the_facts(
    dir: Seq<u8>,
    p: KeyProgress,
    a: KeyStep,
    q: KeyProgress,
    b: KeyStep,
    facts: KeyProgress,
)
    requires
        key_step_due(dir, p, a),
        a is Finish,
        key_step_due(dir, q, b),
        b is Finish,
        knows_more(p, facts),
        knows_more(q, facts),
    ensures
        same_key_step(a, b),
{
    key_outcome_is_final(dir, p, a, facts);
    key_outcome_is_final(dir, q, b, facts);
    key_step_is_determined(dir, facts, a, b);
}

/// Law: no raw key is handed out before it is stored encrypted, and migrating does not change it.
pub proof fn raw_key_is_migrated_first(dir: Seq<u8>, p: KeyProgress, secret: [u8; 32])
    requires
        key_step_due(dir, p, KeyStep::Finish(Ok(secret))),
        raw_present(p),
    ensures
        p.migrated matches Some(Ok(_)),
        p.raw_key == Some(Ok::<[u8; 32], IoFault>(secret)),
{
}

/// Law: next to a key file that was there, a public key file that is there is left alone, and next
/// to an encrypted one none is written.
pub proof fn public_file_is_not_replaced(dir: Seq<u8>, p: KeyProgress, path: UnixPath, text: String)
    requires
        key_present(p),
        key_step_due(dir, p, KeyStep::WritePublicFile { path, text }),
    ensures
        raw_present(p),
        p.pub_exists == Some(false),
{
}

/// The secret key that the encrypted key file holds after a run: the one that was migrated into
/// it, or the one that it gave.
pub open spec fn stored_secret(p: KeyProgress) -> Option<[u8; 32]> {
    if raw_migrated(p) {
        Some(p.raw_key->0->Ok_0)
    } else if key_opened(p) {
        Some(p.stored_key->0->Ok_0)
    } else {
        None
    }
}

/// Law: the identity persists. A run that ends well leaves its key in the encrypted key file, and
/// a later run that finds an encrypted key file, and is given the key that was left in it, ends
/// with the same key.
pub proof fn identity_persists(
    dir: Seq<u8>,
    first: KeyProgress,
    secret: [u8; 32],
    second: KeyProgress,
    step: KeyStep,
)
    requires
        key_step_due(dir, first, KeyStep::Finish(Ok(secret))),
        sealed_present(second),
        second.stored_key == Some(Ok::<[u8; 32], String>(stored_secret(first)->0)),
        key_step_due(dir, second, step),
    ensures
        stored_secret(first) == Some(secret),
        same_key_step(step, KeyStep::Finish(Ok(secret))),
{
}

/// Law: the key file is `iroh_id.key`, and the public key file `iroh_id.pub`, in a directory that
/// does not end in a slash.
pub proof fn key_files_spelled_out(dir: Seq<u8>)
    requires
        dir.len() > 0,
        dir.last() != 0x2f,
    ensures
        key_path(dir) == dir + "/iroh_id.key".spec_bytes(),
        pub_path(dir) == dir + "/iroh_id.pub".spec_bytes(),
{
    reveal_strlit("iroh_id.key");
    reveal_strlit("iroh_id.pub");
    reveal_strlit("/iroh_id.key");
    reveal_strlit("/iroh_id.pub");
    is_ascii_chars_encode_utf8("iroh_id.key"@);
    is_ascii_chars_encode_utf8("iroh_id.pub"@);
    is_ascii_chars_encode_utf8("/iroh_id.key"@);
    is_ascii_chars_encode_utf8("/iroh_id.pub"@);
    assert(key_path(dir) =~= dir + "/iroh_id.key".spec_bytes());
    assert(pub_path(dir) =~= dir + "/iroh_id.pub".spec_bytes());
}

/// Law: the key directory of a home directory that is empty or ends in a slash is
/// `.config/herdr/iroh` behind it, and the configuration directory is `.config`.
pub proof fn key_dir_of_a_slashed_home(home: Seq<u8>)
    requires
        home.len() == 0 || home.last() == 0x2f,
    ensures
        config_dir(home) == home + ".config".spec_bytes(),
        key_dir(home) == home + ".config/herdr/iroh".spec_bytes(),
{
    reveal_strlit(".config");
    reveal_strlit("herdr");
    reveal_strlit("iroh");
    reveal_strlit(".config/herdr/iroh");
    is_ascii_chars_encode_utf8(".config"@);
    is_ascii_chars_encode_utf8("herdr"@);
    is_ascii_chars_encode_utf8("iroh"@);
    is_ascii_chars_encode_utf8(".config/herdr/iroh"@);
    assert(config_dir(home) =~= home + ".config".spec_bytes());
    assert(key_dir(home) =~= home + ".config/herdr/iroh".spec_bytes());
}

/// Law: the configuration directory of a home directory that does not end in a slash is `/.config`
/// behind it.
pub proof fn config_dir_spelled_out(home: Seq<u8>)
    requires
        home.len() > 0,
        home.last() != 0x2f,
    ensures
        config_dir(home) == home + "/.config".spec_bytes(),
{
    reveal_strlit(".config");
    reveal_strlit("/.config");
    is_ascii_chars_encode_utf8(".config"@);
    is_ascii_chars_encode_utf8("/.config"@);
    assert(config_dir(home) =~= home + "/.config".spec_bytes());
}

/// Law: the key directory comes first. It is created, then the key file looked for; what goes wrong
/// with the directory is passed on.
pub proof fn key_directory_comes_first(dir: Seq<u8>, p: KeyProgress, step: KeyStep)
    requires
        key_step_due(dir, p, step),
    ensures
        match p.dir_created {
            None => step matches KeyStep::CreateDir(path) && path@ == dir,
            Some(Err(fault)) => step matches KeyStep::Finish(Err(error)) && error.failure
                == Failure::Io && error.cause@ == fault.text@ && error.kind == Some(fault.kind),
            Some(Ok(_)) => p.key_exists is None ==> (step matches KeyStep::ProbeKeyFile(path)
                && path@ == key_path(dir)),
        },
{
}

/// Law: where there is no key file a key is created, and its public key file written, readable for
/// everybody, whether one was there or not. Only then is the new key handed out.
pub proof fn new_key_gets_its_public_file(dir: Seq<u8>, p: KeyProgress, step: KeyStep)
    requires
        key_step_due(dir, p, step),
        p.dir_created matches Some(Ok(_)),
        p.key_exists == Some(false),
    ensures
        match p.stored_key {
            None => step matches KeyStep::OpenKeyFile { dir: path, file_name } && path@ == dir
                && file_name@ == "iroh_id.key"@,
            Some(Err(cause)) => step matches KeyStep::Finish(Err(error)) && error.failure
                == Failure::CreateKey && error.cause@ == cause@ && error.kind is None,
            Some(Ok(secret)) => match p.pub_written {
                None => step matches KeyStep::WritePublicFile { path, text } && path@
                    == pub_path(dir) && text@ == hex_text(public_key_bytes(secret@)),
                Some(Err(fault)) => step matches KeyStep::Finish(Err(error)) && error.failure
                    == Failure::Io && error.cause@ == fault.text@ && error.kind == Some(fault.kind),
                Some(Ok(_)) => if p.pub_mode_tried {
                    step matches KeyStep::Finish(Ok(given)) && given == secret
                } else {
                    step matches KeyStep::SetPublicMode { path, mode } && path@
                        == pub_path(dir) && mode == 0o644
                },
            },
        },
{
}

/// Law: a run that created its key ends well only with the public key file written, whatever file
/// was there before.
pub proof fn created_key_ends_with_its_public_file_written(
    dir: Seq<u8>,
    p: KeyProgress,
    secret: [u8; 32],
)
    requires
        key_step_due(dir, p, KeyStep::Finish(Ok(secret))),
        p.key_exists == Some(false),
    ensures
        p.pub_written matches Some(Ok(_)),
        p.stored_key == Some(Ok::<[u8; 32], String>(secret)),
{
}

/// Law: when a key is created, it makes no difference whether a public key file is there.
pub proof fn creation_ignores_an_old_public_file(
    dir: Seq<u8>,
    p: KeyProgress,
    found: Option<bool>,
    step: KeyStep,
)
    requires
        p.key_exists == Some(false),
    ensures
        key_step_due(dir, p, step) <==> key_step_due(
            dir,
            (KeyProgress { pub_exists: found, ..p }),
            step,
        ),
{
}

/// Law: a key file that does not hold exactly thirty-two bytes is encrypted. Its key is loaded and
/// handed out, and nothing is written.
pub proof fn encrypted_key_is_loaded(dir: Seq<u8>, p: KeyProgress, step: KeyStep)
    requires
        key_step_due(dir, p, step),
        p.dir_created matches Some(Ok(_)),
        p.key_exists == Some(true),
    ensures
        match p.key_len {
            None => step matches KeyStep::MeasureKeyFile(path) && path@ == key_path(dir),
            Some(Err(fault)) => step matches KeyStep::Finish(Err(error)) && error.failure
                == Failure::Io && error.cause@ == fault.text@ && error.kind == Some(fault.kind),
            Some(Ok(len)) => len != 32 ==> match p.stored_key {
                None => step matches KeyStep::OpenKeyFile { dir: path, file_name } && path@ == dir
                    && file_name@ == "iroh_id.key"@,
                Some(Err(cause)) => step matches KeyStep::Finish(Err(error)) && error.failure
                    == Failure::LoadKey && error.cause@ == cause@ && error.kind is None,
                Some(Ok(secret)) => step matches KeyStep::Finish(Ok(given)) && given == secret,
            },
        },
{
}

/// Law: a key file of exactly thirty-two bytes is raw. Its key is read, stored encrypted, and
/// handed out; a public key file is written where there is none.
pub proof fn raw_key_is_migrated(dir: Seq<u8>, p: KeyProgress, step: KeyStep)
    requires
        key_step_due(dir, p, step),
        p.dir_created matches Some(Ok(_)),
        p.key_exists == Some(true),
        p.key_len matches Some(Ok(len)) && len == 32,
    ensures
        match p.raw_key {
            None => step matches KeyStep::ReadRawKey(path) && path@ == key_path(dir),
            Some(Err(fault)) => step matches KeyStep::Finish(Err(error)) && error.failure
                == Failure::Io && error.cause@ == fault.text@ && error.kind == Some(fault.kind),
            Some(Ok(secret)) => match p.migrated {
                None => step matches KeyStep::MigrateRawKey { dir: path, file_name, secret: kept }
                    && path@ == dir && file_name@ == "iroh_id.key"@ && kept == secret,
                Some(Err(cause)) => step matches KeyStep::Finish(Err(error)) && error.failure
                    == Failure::MigrateKey && error.cause@ == cause@ && error.kind is None,
                Some(Ok(_)) => match p.pub_exists {
                    None => step matches KeyStep::ProbePublicFile(path) && path@ == pub_path(dir),
                    Some(true) => step matches KeyStep::Finish(Ok(given)) && given == secret,
                    Some(false) => match p.pub_written {
                        None => step matches KeyStep::WritePublicFile { path, text } && path@
                            == pub_path(dir) && text@ == hex_text(public_key_bytes(secret@)),
                        Some(Err(fault)) => step matches KeyStep::Finish(Err(error))
                            && error.failure == Failure::Io && error.cause@ == fault.text@
                            && error.kind == Some(fault.kind),
                        Some(Ok(_)) => if p.pub_mode_tried {
                            step matches KeyStep::Finish(Ok(given)) && given == secret
                        } else {
                            step matches KeyStep::SetPublicMode { path, mode } && path@
                                == pub_path(dir) && mode == 0o644
                        },
                    },
                },
            },
        },
{
}

/// Law: a key is handed out only where it came from a key file, or was created with one: it is the
/// raw key that was migrated, or the key that the encrypted file gave.
pub proof fn key_comes_from_its_file(dir: Seq<u8>, p: KeyProgress, secret: [u8; 32])
    requires
        key_step_due(dir, p, KeyStep::Finish(Ok(secret))),
    ensures
        p.dir_created matches Some(Ok(_)),
        p.key_exists == Some(true) || p.key_exists == Some(false),
        raw_present(p) ==> p.raw_key == Some(Ok::<[u8; 32], IoFault>(secret)),
        raw_present(p) ==> (p.migrated matches Some(Ok(_))),
        !raw_present(p) ==> p.stored_key == Some(Ok::<[u8; 32], String>(secret)),
{
}

} // verus!
