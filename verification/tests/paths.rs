use std::path::Path;

use iroh_bridge::error::Failure;
use iroh_bridge::identity::{home_config_dir, identity_key_dir};
use iroh_bridge::paths::UnixPath;

fn joined(base: &str, component: &str) -> String {
    UnixPath::new(base).join(component).display()
}

#[test]
fn join_puts_one_slash_between() {
    assert_eq!(joined("/home/user", ".config"), "/home/user/.config");
    assert_eq!(joined("/home/user/", ".config"), "/home/user/.config");
    assert_eq!(joined("", ".config"), ".config");
    assert_eq!(joined("/", "x"), "/x");
    assert_eq!(joined("/home/user", "/etc"), "/etc");
    assert_eq!(joined("/home/user", ""), "/home/user/");
}

#[test]
fn join_agrees_with_the_standard_library() {
    for base in ["", "/", "a", "a/", "/a//", "/home/user", "."] {
        for component in ["", "x", "/x", "x/", "../y", ".config"] {
            let expected = Path::new(base).join(component);
            assert_eq!(joined(base, component), expected.to_str().unwrap());
        }
    }
}

#[test]
fn display_agrees_with_the_standard_library() {
    let path = UnixPath {
        bytes: vec![b'/', 0xff, b'x', 0xc3, 0xa9],
    };
    assert_eq!(path.display(), "/\u{fffd}x\u{e9}");
    assert_eq!(UnixPath::new("/run/a.sock").display(), "/run/a.sock");
    assert_eq!(path.clone(), path);
}

#[test]
fn identity_keys_live_below_the_home_directory() {
    let dir = identity_key_dir(Some(UnixPath::new("/home/user"))).unwrap();
    assert_eq!(dir, UnixPath::new("/home/user/.config/herdr/iroh"));
    let dir = identity_key_dir(Some(UnixPath::new("/"))).unwrap();
    assert_eq!(dir, UnixPath::new("/.config/herdr/iroh"));
    let dir = home_config_dir(Some(UnixPath::new("/root"))).unwrap();
    assert_eq!(dir, UnixPath::new("/root/.config"));
}

#[test]
fn identity_key_dir_keeps_bytes_that_are_no_text() {
    let home = UnixPath {
        bytes: vec![b'/', 0xfe],
    };
    let dir = identity_key_dir(Some(home)).unwrap();
    assert_eq!(&dir.bytes[..2], &[b'/', 0xfe]);
    assert_eq!(&dir.bytes[2..], b"/.config/herdr/iroh");
}

#[test]
fn identity_key_dir_needs_a_home_directory() {
    assert!(home_config_dir(None).is_none());
    let error = identity_key_dir(None).unwrap_err();
    assert_eq!(error.failure, Failure::NoConfigDir);
    assert_eq!(error.message(), "cannot determine config directory");
}
