use pairtree::naming::{
    dest_path, dest_path_base, extension, file_name, file_name_of, join_path, sanitize_path,
    NamingError, NamingPolicy, EXTENSION_SEPARATOR,
};

const HEX: &str = "0123456789abcdef0123456789abcdef";

fn policy(use_hash: bool, keep_ext: bool, origin: bool) -> NamingPolicy {
    NamingPolicy {
        use_hash_for_filename: use_hash,
        keep_file_extension: keep_ext,
        origin_path_in_dest_name: origin,
    }
}

#[test]
fn fanout_uses_first_two_pairs() {
    assert_eq!(dest_path_base(HEX, "dest"), "dest/01/23");
}

#[test]
fn fanout_with_trailing_slash_root() {
    assert_eq!(dest_path_base(HEX, "dest/"), "dest/01/23");
}

#[test]
fn fanout_with_empty_root() {
    assert_eq!(dest_path_base(HEX, ""), "01/23");
}

#[test]
fn fanout_same_for_every_policy() {
    for use_hash in [false, true] {
        for keep in [false, true] {
            for origin in [false, true] {
                let d = dest_path(HEX, "in/a.txt", "/data/out", &policy(use_hash, keep, origin))
                    .unwrap();
                assert_eq!(d.fanout_dir, "/data/out/01/23");
                assert!(d.final_path.starts_with("/data/out/01/23/"));
            }
        }
    }
}

#[test]
fn name_original_base_name() {
    let p = policy(false, false, false);
    assert_eq!(file_name(HEX, "src/dir/notes.txt", &p), Ok("notes.txt".to_string()));
}

#[test]
fn name_origin_path_sanitized() {
    let p = policy(false, false, true);
    assert_eq!(file_name(HEX, "a/b/c.log", &p), Ok("a_b_c.log".to_string()));
}

#[test]
fn name_hash_only() {
    let p = policy(true, false, false);
    assert_eq!(file_name(HEX, "a/b/c.log", &p), Ok(HEX.to_string()));
}

#[test]
fn name_hash_with_extension() {
    let p = policy(true, true, false);
    assert_eq!(EXTENSION_SEPARATOR, ".");
    assert_eq!(file_name(HEX, "a/b/c.log", &p), Ok(format!("{}.log", HEX)));
}

#[test]
fn name_hash_with_missing_extension() {
    let p = policy(true, true, false);
    assert_eq!(file_name(HEX, "a/b/README", &p), Err(NamingError::MissingExtension));
}

#[test]
fn name_hash_with_dotfile_has_no_extension() {
    let p = policy(true, true, false);
    assert_eq!(file_name(HEX, "home/.bashrc", &p), Err(NamingError::MissingExtension));
}

#[test]
fn origin_flag_ignored_with_hash_names() {
    let p = policy(true, false, true);
    assert_eq!(file_name(HEX, "a/b/c.log", &p), Ok(HEX.to_string()));
}

#[test]
fn extension_flag_ignored_with_original_names() {
    let p = policy(false, true, false);
    assert_eq!(file_name(HEX, "a/b/README", &p), Ok("README".to_string()));
}

#[test]
fn sanitize_replaces_both_separators() {
    assert_eq!(sanitize_path("a\\b/c.d"), "a_b_c.d");
    assert_eq!(sanitize_path("/abs/path"), "_abs_path");
    assert_eq!(sanitize_path("plain"), "plain");
}

#[test]
fn base_name_of_paths() {
    assert_eq!(file_name_of("a/b/c.log"), "c.log");
    assert_eq!(file_name_of("c.log"), "c.log");
    assert_eq!(file_name_of("/x/y"), "y");
}

#[test]
fn extension_cases() {
    assert_eq!(extension("archive.tar.gz"), Some("gz".to_string()));
    assert_eq!(extension("notes.txt"), Some("txt".to_string()));
    assert_eq!(extension("trailing."), Some("".to_string()));
    assert_eq!(extension(".hidden"), None);
    assert_eq!(extension("noext"), None);
}

#[test]
fn join_adds_one_separator() {
    assert_eq!(join_path("a", "b"), "a/b");
    assert_eq!(join_path("a/", "b"), "a/b");
    assert_eq!(join_path("", "b"), "b");
}

#[test]
fn dest_path_missing_extension_error() {
    let r = dest_path(HEX, "x/noext", "out", &policy(true, true, false));
    assert_eq!(r.unwrap_err(), NamingError::MissingExtension);
}

#[test]
fn dest_path_final_inside_fanout() {
    let d = dest_path(HEX, "x/y.bin", "out", &policy(true, true, false)).unwrap();
    assert_eq!(d.fanout_dir, "out/01/23");
    assert_eq!(d.final_path, format!("out/01/23/{}.bin", HEX));
}
