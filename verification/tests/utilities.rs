//! The leaf utilities: content fingerprints and project directories.

use file_persist::project_info::{AppAuthor, ProjectInfo};
use file_persist::sha_snap::snap;

#[test]
fn snap_of_empty_input() {
    let d = snap(b"");
    assert_eq!(
        d,
        "cf83e1357eefb8bdf1542850d66d8007d620e4050b5715dc83f4a921d36ce9ce\
         47d0d13c5d85f2b0ff8318d2877eec2f63b931bd47417a81a538327af927da3e"
    );
}

#[test]
fn snap_is_a_fixed_length_digest() {
    let d = snap(b"abc");
    assert_eq!(d.len(), 128);
    assert_ne!(d, "abc");
    assert!(d.chars().all(|c| c.is_ascii_hexdigit() && !c.is_ascii_uppercase()));
    assert_eq!(d, snap(b"abc"));
    assert_ne!(d, snap(b"abd"));
}

struct DemoApp;

impl AppAuthor for DemoApp {
    fn app_name() -> &'static str {
        "demoapp"
    }

    fn author() -> &'static str {
        "demoauthor"
    }
}

#[test]
fn project_dirs_carry_the_app_name() {
    match DemoApp::config_dir() {
        Some(p) => assert!(p.contains("demoapp")),
        None => {}
    }
    match DemoApp::project_dirs() {
        Some(p) => {
            assert!(p.data_dir.contains("demoapp"));
            assert!(p.cache_dir.contains("demoapp"));
        }
        None => {}
    }
}
