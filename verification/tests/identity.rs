use std::collections::{HashMap, HashSet};

use iroh_bridge::error::{BridgeError, Failure, IoFault};
use iroh_bridge::hex::{hex_decode, hex_encode};
use iroh_bridge::identity::{
    next_key_step, KeyProgress, KeyStep, KEY_FILE_NAME, PUB_KEY_FILE_NAME,
};
use iroh_bridge::keys::{
    identity_of_checked_key, load_identity_public_key, public_key_text, EndpointId,
};
use iroh_bridge::lookup::{next_lookup_step, LookupProgress, LookupStep};
use iroh_bridge::paths::UnixPath;

const SEAL: &[u8] = b"sealed:";

/// A disk in memory, with an encrypted key file that is a raw one behind a seal.
struct Disk {
    dirs: HashSet<Vec<u8>>,
    files: HashMap<Vec<u8>, Vec<u8>>,
    modes: HashMap<Vec<u8>, u32>,
    broken: &'static str,
}

impl Disk {
    fn new() -> Disk {
        Disk {
            dirs: HashSet::new(),
            files: HashMap::new(),
            modes: HashMap::new(),
            broken: "",
        }
    }

    fn check(&self, operation: &str) -> Result<(), String> {
        if self.broken == operation {
            Err(format!("{operation} broke"))
        } else {
            Ok(())
        }
    }

    fn check_io(&self, operation: &str) -> Result<(), IoFault> {
        self.check(operation).map_err(|text| IoFault {
            kind: std::io::ErrorKind::PermissionDenied,
            text,
        })
    }

    fn holds(&self, path: &UnixPath) -> bool {
        self.files.contains_key(&path.bytes)
    }

    fn seal(&mut self, path: UnixPath, secret: &[u8; 32]) {
        let mut sealed = SEAL.to_vec();
        sealed.extend_from_slice(secret);
        self.files.insert(path.bytes, sealed);
    }

    fn open(&mut self, path: UnixPath) -> Result<[u8; 32], String> {
        self.check("open")?;
        match self.files.get(&path.bytes) {
            Some(bytes) => match bytes.strip_prefix(SEAL) {
                Some(secret) => Ok(secret.try_into().unwrap()),
                None => Err("not sealed".to_string()),
            },
            None => {
                let secret = iroh::SecretKey::generate().to_bytes();
                self.seal(path, &secret);
                Ok(secret)
            }
        }
    }

    fn public_text(&self, dir: &UnixPath) -> Option<String> {
        let path = dir.join(PUB_KEY_FILE_NAME);
        let bytes = self.files.get(&path.bytes)?;
        Some(String::from_utf8(bytes.clone()).unwrap())
    }
}

fn key_dir() -> UnixPath {
    UnixPath::new("/tmp/test").join("herdr").join("iroh")
}

fn load_or_create(disk: &mut Disk, dir: &UnixPath) -> Result<[u8; 32], BridgeError> {
    let mut p = KeyProgress::new();
    for _ in 0..10 {
        match next_key_step(dir, &p) {
            KeyStep::CreateDir(path) => {
                p.dir_created = Some(disk.check_io("create"));
                disk.dirs.insert(path.bytes);
            }
            KeyStep::ProbeKeyFile(path) => p.key_exists = Some(disk.holds(&path)),
            KeyStep::MeasureKeyFile(path) => {
                let len = disk.files[&path.bytes].len() as u64;
                p.key_len = Some(disk.check_io("measure").map(|()| len));
            }
            KeyStep::ReadRawKey(path) => {
                let secret = disk.files[&path.bytes].as_slice().try_into().unwrap();
                p.raw_key = Some(disk.check_io("read").map(|()| secret));
            }
            KeyStep::MigrateRawKey {
                dir,
                file_name,
                secret,
            } => {
                let result = disk.check("migrate");
                if result.is_ok() {
                    disk.seal(dir.join(file_name), &secret);
                }
                p.migrated = Some(result);
            }
            KeyStep::OpenKeyFile { dir, file_name } => {
                p.stored_key = Some(disk.open(dir.join(file_name)));
            }
            KeyStep::ProbePublicFile(path) => p.pub_exists = Some(disk.holds(&path)),
            KeyStep::WritePublicFile { path, text } => {
                let result = disk.check_io("write");
                if result.is_ok() {
                    disk.files.insert(path.bytes, text.into_bytes());
                }
                p.pub_written = Some(result);
            }
            KeyStep::SetPublicMode { path, mode } => {
                disk.modes.insert(path.bytes, mode);
                p.pub_mode_tried = true;
            }
            KeyStep::Finish(outcome) => return outcome,
        }
    }
    panic!("no end in sight");
}

fn load_public(disk: &mut Disk, dir: &UnixPath) -> Result<Option<EndpointId>, BridgeError> {
    let mut p = LookupProgress::new();
    for _ in 0..10 {
        match next_lookup_step(dir, &p) {
            LookupStep::ProbePublicFile(path) => p.pub_exists = Some(disk.holds(&path)),
            LookupStep::ReadPublicFile(path) => {
                let text = String::from_utf8(disk.files[&path.bytes].clone()).unwrap();
                p.pub_text = Some(disk.check_io("read").map(|()| text));
            }
            LookupStep::ProbeKeyFile(path) => p.key_exists = Some(disk.holds(&path)),
            LookupStep::MeasureKeyFile(path) => {
                let len = disk.files[&path.bytes].len() as u64;
                p.key_len = Some(disk.check_io("measure").map(|()| len));
            }
            LookupStep::ReadRawKey(path) => {
                let secret = disk.files[&path.bytes].as_slice().try_into().unwrap();
                p.raw_key = Some(disk.check_io("read").map(|()| secret));
            }
            LookupStep::OpenKeyFile { dir, file_name } => {
                let path = dir.join(file_name);
                assert!(disk.holds(&path));
                p.stored_key = Some(disk.open(path));
            }
            LookupStep::Finish(found) => return found,
        }
    }
    panic!("no end in sight");
}

#[test]
fn create_and_load_identity_key() {
    let mut disk = Disk::new();
    let key_dir = key_dir();

    // First call creates the key.
    let secret = load_or_create(&mut disk, &key_dir).unwrap();
    assert_eq!(secret.len(), 32);
    assert!(disk.holds(&key_dir.join(KEY_FILE_NAME)));
    assert!(disk.holds(&key_dir.join(PUB_KEY_FILE_NAME)));

    // Second call loads the same key.
    let loaded = load_or_create(&mut disk, &key_dir).unwrap();
    assert_eq!(secret, loaded);
}

#[test]
fn load_identity_public_key_existing() {
    let mut disk = Disk::new();
    let key_dir = key_dir();

    // Create a key first.
    let secret = load_or_create(&mut disk, &key_dir).unwrap();

    // Should load the public key.
    let pub_key = load_public(&mut disk, &key_dir).unwrap();
    assert!(pub_key.is_some());
    assert_eq!(pub_key, Some(EndpointId::of_secret(&secret)));
}

#[test]
fn load_identity_public_key_none_when_missing() {
    let mut disk = Disk::new();
    let pub_key = load_public(&mut disk, &key_dir()).unwrap();
    assert!(pub_key.is_none());
    assert!(disk.files.is_empty());
}

#[test]
fn stored_key_gives_the_id_without_a_public_file() {
    let key_dir = key_dir();

    // The public key file of a new key could not be written.
    let mut disk = Disk::new();
    disk.broken = "write";
    assert!(load_or_create(&mut disk, &key_dir).is_err());
    disk.broken = "";
    assert!(disk.public_text(&key_dir).is_none());
    let secret = disk.open(key_dir.join(KEY_FILE_NAME)).unwrap();
    let public = *iroh::SecretKey::from_bytes(&secret).public().as_bytes();
    let id = load_public(&mut disk, &key_dir).unwrap().unwrap();
    assert_eq!(id.to_bytes(), public);
    assert_eq!(load_or_create(&mut disk, &key_dir).unwrap(), secret);

    // It was lost later.
    let mut disk = Disk::new();
    let secret = load_or_create(&mut disk, &key_dir).unwrap();
    let before = load_public(&mut disk, &key_dir).unwrap();
    disk.files.remove(&key_dir.join(PUB_KEY_FILE_NAME).bytes);
    assert_eq!(load_public(&mut disk, &key_dir).unwrap(), before);
    assert_eq!(before, Some(EndpointId::of_secret(&secret)));
    assert_eq!(disk.files.len(), 1);

    // A raw key that was never migrated, and stays as it is.
    let mut disk = Disk::new();
    disk.files
        .insert(key_dir.join(KEY_FILE_NAME).bytes, vec![9; 32]);
    assert_eq!(
        load_public(&mut disk, &key_dir).unwrap(),
        Some(EndpointId::of_secret(&[9; 32]))
    );
    assert_eq!(disk.files[&key_dir.join(KEY_FILE_NAME).bytes], vec![9; 32]);

    assert_eq!(
        load_identity_public_key(None, Some(&secret)).unwrap(),
        Some(EndpointId::of_secret(&secret))
    );
    assert_eq!(load_identity_public_key(None, None).unwrap(), None);
}

#[test]
fn public_file_comes_before_the_stored_key() {
    let text = public_key_text(&[1; 32]);
    assert_eq!(
        load_identity_public_key(Some(&text), Some(&[2; 32])).unwrap(),
        Some(EndpointId::of_secret(&[1; 32]))
    );
    let error = load_identity_public_key(Some("zz"), Some(&[2; 32])).unwrap_err();
    assert_eq!(error.failure, Failure::InvalidPubkey);
}

#[test]
fn each_failure_ends_the_lookup() {
    let key = key_dir().join(KEY_FILE_NAME);
    let public = key_dir().join(PUB_KEY_FILE_NAME);
    let cases = [
        ("read", &public, 64, Failure::Io, "read broke"),
        ("measure", &key, 39, Failure::Io, "measure broke"),
        ("read", &key, 32, Failure::Io, "read broke"),
        (
            "open",
            &key,
            39,
            Failure::LoadKey,
            "failed to load identity key: open broke",
        ),
    ];
    for (broken, path, len, failure, message) in cases {
        let mut disk = Disk::new();
        disk.broken = broken;
        disk.files.insert(path.bytes.clone(), vec![b'0'; len]);
        let error = load_public(&mut disk, &key_dir()).unwrap_err();
        assert_eq!(error.failure, failure);
        assert_eq!(error.message(), message);
        if failure == Failure::Io {
            assert_eq!(error.kind, Some(std::io::ErrorKind::PermissionDenied));
        } else {
            assert_eq!(error.kind, None);
        }
    }
}

#[test]
fn load_identity_public_key_invalid_hex() {
    let mut disk = Disk::new();
    let key_dir = key_dir();
    let path = key_dir.join(PUB_KEY_FILE_NAME);
    disk.files.insert(path.bytes, b"not-hex!!!".to_vec());

    let result = load_public(&mut disk, &key_dir);
    assert!(result.is_err());
    let error = result.unwrap_err();
    assert_eq!(error.failure, Failure::InvalidPubkey);
    assert_eq!(error.message(), "invalid pubkey: invalid symbol at 0");
}

#[test]
fn load_or_create_identity_key_invalid_length() {
    let mut disk = Disk::new();
    let key_dir = key_dir();
    let path = key_dir.join(KEY_FILE_NAME);
    disk.files.insert(path.bytes, b"too-short".to_vec());

    let result = load_or_create(&mut disk, &key_dir);
    assert!(result.is_err());
    let error = result.unwrap_err();
    assert_eq!(error.failure, Failure::LoadKey);
    assert_eq!(error.message(), "failed to load identity key: not sealed");
}

#[test]
fn creating_a_key_writes_the_public_file_for_everybody_to_read() {
    let mut disk = Disk::new();
    let key_dir = key_dir();
    let secret = load_or_create(&mut disk, &key_dir).unwrap();
    assert!(disk.dirs.contains(&key_dir.bytes));
    let public = iroh::SecretKey::from_bytes(&secret).public();
    assert_eq!(disk.public_text(&key_dir).unwrap(), public.to_string());
    let path = key_dir.join(PUB_KEY_FILE_NAME);
    assert_eq!(disk.modes[&path.bytes], 0o644);
}

#[test]
fn raw_key_is_migrated_and_kept() {
    let mut disk = Disk::new();
    let key_dir = key_dir();
    let path = key_dir.join(KEY_FILE_NAME);
    disk.files.insert(path.bytes.clone(), vec![9; 32]);

    assert_eq!(load_or_create(&mut disk, &key_dir).unwrap(), [9; 32]);
    assert!(disk.files[&path.bytes].starts_with(SEAL));
    assert_eq!(
        load_public(&mut disk, &key_dir).unwrap(),
        Some(EndpointId::of_secret(&[9; 32]))
    );
    assert_eq!(load_or_create(&mut disk, &key_dir).unwrap(), [9; 32]);
}

#[test]
fn migration_leaves_a_public_file_alone() {
    let mut disk = Disk::new();
    let key_dir = key_dir();
    disk.files
        .insert(key_dir.join(KEY_FILE_NAME).bytes, vec![9; 32]);
    disk.files
        .insert(key_dir.join(PUB_KEY_FILE_NAME).bytes, b"mine".to_vec());
    assert_eq!(load_or_create(&mut disk, &key_dir).unwrap(), [9; 32]);
    assert_eq!(disk.public_text(&key_dir).unwrap(), "mine");
    assert!(disk.modes.is_empty());
}

#[test]
fn loading_an_encrypted_key_writes_no_public_file() {
    let mut disk = Disk::new();
    let key_dir = key_dir();
    disk.seal(key_dir.join(KEY_FILE_NAME), &[5; 32]);
    assert_eq!(load_or_create(&mut disk, &key_dir).unwrap(), [5; 32]);
    assert!(disk.public_text(&key_dir).is_none());
}

#[test]
fn each_failure_ends_the_loading_of_a_key() {
    let cases = [
        ("create", None, Failure::Io, "create broke"),
        ("measure", Some(32), Failure::Io, "measure broke"),
        ("read", Some(32), Failure::Io, "read broke"),
        (
            "migrate",
            Some(32),
            Failure::MigrateKey,
            "failed to migrate identity key: migrate broke",
        ),
        ("write", Some(32), Failure::Io, "write broke"),
        (
            "open",
            Some(39),
            Failure::LoadKey,
            "failed to load identity key: open broke",
        ),
        (
            "open",
            None,
            Failure::CreateKey,
            "failed to create identity key: open broke",
        ),
        ("write", None, Failure::Io, "write broke"),
    ];
    for (broken, len, failure, message) in cases {
        let mut disk = Disk::new();
        disk.broken = broken;
        let key_dir = key_dir();
        if let Some(len) = len {
            let path = key_dir.join(KEY_FILE_NAME);
            disk.files.insert(path.bytes, vec![1; len]);
        }
        let error = load_or_create(&mut disk, &key_dir).unwrap_err();
        assert_eq!(error.failure, failure);
        assert_eq!(error.message(), message);
        if failure == Failure::Io {
            assert_eq!(error.kind, Some(std::io::ErrorKind::PermissionDenied));
        } else {
            assert_eq!(error.kind, None);
        }
    }
}

#[test]
fn key_outcome_stays_whatever_else_is_known() {
    let mut p = KeyProgress::new();
    p.dir_created = Some(Ok(()));
    p.key_exists = Some(true);
    p.key_len = Some(Ok(100));
    p.stored_key = Some(Ok([3; 32]));
    p.raw_key = Some(Err(IoFault {
        kind: std::io::ErrorKind::NotFound,
        text: "unrelated".to_string(),
    }));
    p.pub_exists = Some(false);
    match next_key_step(&key_dir(), &p) {
        KeyStep::Finish(Ok(secret)) => assert_eq!(secret, [3; 32]),
        step => panic!("{step:?}"),
    }
}

#[test]
fn public_key_text_of_a_known_key() {
    let secret: [u8; 32] =
        hex_decode("9d61b19deffd5a60ba844af492ec2cc44449c5697b326919703bac031cae7f60")
            .unwrap()
            .try_into()
            .unwrap();
    let text = public_key_text(&secret);
    assert_eq!(
        text,
        "d75a980182b10ab7d54bfed3c964073a0ee172f3daa62325af021a68f707511a"
    );
    let id = load_identity_public_key(Some(&format!("{text}\n")), None)
        .unwrap()
        .unwrap();
    assert_eq!(hex_encode(&id.to_bytes()), text);
    assert_eq!(id, EndpointId::of_secret(&secret));
}

#[test]
fn public_key_file_of_a_wrong_length_is_refused() {
    for text in ["", "00", &"00".repeat(31), &"00".repeat(33)] {
        let error = load_identity_public_key(Some(text), None).unwrap_err();
        assert_eq!(error.failure, Failure::InvalidPubkeyLength);
        assert_eq!(error.message(), "invalid pubkey length");
    }
    let error = load_identity_public_key(Some("abc"), None).unwrap_err();
    assert_eq!(error.message(), "invalid pubkey: invalid length at 2");
}

#[test]
fn bytes_that_are_no_public_key_are_refused() {
    let mut accepted = 0;
    let mut refused = 0;
    for first in 0..=255u8 {
        let mut bytes = [0u8; 32];
        bytes[0] = first;
        let known = iroh::EndpointId::from_bytes(&bytes);
        let id = EndpointId::from_bytes(&bytes);
        assert_eq!(id.is_ok(), known.is_ok());
        let found = load_identity_public_key(Some(&hex_encode(&bytes)), None);
        match id {
            Ok(id) => {
                accepted += 1;
                assert_eq!(id.to_bytes(), bytes);
                assert_eq!(found.unwrap(), Some(id));
            }
            Err(reason) => {
                refused += 1;
                assert_eq!(reason, "data is not a valid public key");
                let error = found.unwrap_err();
                assert_eq!(error.failure, Failure::InvalidPublicKeyBytes);
                assert_eq!(
                    error.message(),
                    "invalid public key bytes: data is not a valid public key"
                );
            }
        }
    }
    assert!(accepted > 0);
    assert!(refused > 0);
}

#[test]
fn checked_key_decides_what_was_found() {
    let id = EndpointId::of_secret(&[1; 32]);
    assert_eq!(identity_of_checked_key(Ok(id)).unwrap(), Some(id));
    let error = identity_of_checked_key(Err("no point".to_string())).unwrap_err();
    assert_eq!(error.message(), "invalid public key bytes: no point");
}
