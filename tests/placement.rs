use pairtree::hash::HashType;
use pairtree::naming::NamingPolicy;
use pairtree::placement::{should_place, EntryKind, PlacementRequest};

fn request(source: &str, use_hash: bool, keep_ext: bool, origin: bool) -> PlacementRequest {
    PlacementRequest {
        source_path: source.to_string(),
        dest_root: "destRoot".to_string(),
        hash_type: HashType::Blake3,
        policy: NamingPolicy {
            use_hash_for_filename: use_hash,
            keep_file_extension: keep_ext,
            origin_path_in_dest_name: origin,
        },
    }
}

fn blake3_hello() -> String {
    blake3::hash(b"hello").to_hex().to_string()
}

#[test]
fn scenario_original_name() {
    let h = blake3_hello();
    let d = request("notes.txt", false, false, false).plan(b"hello").unwrap();
    assert_eq!(d.fanout_dir, format!("destRoot/{}/{}", &h[0..2], &h[2..4]));
    assert_eq!(d.final_path, format!("destRoot/{}/{}/notes.txt", &h[0..2], &h[2..4]));
}

#[test]
fn scenario_hash_name_with_extension() {
    let h = blake3_hello();
    let d = request("notes.txt", true, true, false).plan(b"hello").unwrap();
    assert_eq!(d.final_path, format!("destRoot/{}/{}/{}.txt", &h[0..2], &h[2..4], h));
}

#[test]
fn scenario_origin_path_name() {
    let d = request("a/b/c.log", false, false, true).plan(b"hello").unwrap();
    assert!(d.final_path.ends_with("/a_b_c.log"));
    let h = blake3_hello();
    assert_eq!(d.final_path, format!("destRoot/{}/{}/a_b_c.log", &h[0..2], &h[2..4]));
}

#[test]
fn replanning_gives_same_directory() {
    let r = request("notes.txt", false, false, false);
    let first = r.plan(b"hello").unwrap();
    let second = r.plan(b"hello").unwrap();
    assert_eq!(first.fanout_dir, second.fanout_dir);
    assert_eq!(first.final_path, second.final_path);
}

#[test]
fn content_not_path_decides_directory() {
    let a = request("one/x.txt", true, false, false).plan(b"same bytes").unwrap();
    let b = request("two/y.dat", true, false, false).plan(b"same bytes").unwrap();
    assert_eq!(a.fanout_dir, b.fanout_dir);
    assert_eq!(a.final_path, b.final_path);
    let c = request("one/x.txt", true, false, false).plan(b"other bytes").unwrap();
    assert_ne!(a.final_path, c.final_path);
}

#[test]
fn plan_with_md5_and_sha1() {
    let mut r = request("f.txt", true, false, false);
    r.hash_type = HashType::MD5;
    let d = r.plan(b"hello").unwrap();
    assert_eq!(d.final_path, "destRoot/5d/41/5d41402abc4b2a76b9719d911017c592");
    r.hash_type = HashType::SHA1;
    let d = r.plan(b"hello").unwrap();
    assert_eq!(d.final_path, "destRoot/aa/f4/aaf4c61ddcc5e8a2dabede0f3b482cd9aea9434d");
}

#[test]
fn plan_missing_extension() {
    assert!(request("Makefile", true, true, false).plan(b"hello").is_err());
}

#[test]
fn only_files_are_placed() {
    assert!(should_place(EntryKind::File));
    assert!(!should_place(EntryKind::Directory));
    assert!(!should_place(EntryKind::Other));
}
