//! Destination paths: the fan-out directory and the final file name.
//!
//! Paths are strings whose components are separated by '/'.

use vstd::prelude::*;

verus! {

/// Text placed between the digest and the kept extension when a hashed
/// file name keeps the source file's extension.
pub const EXTENSION_SEPARATOR: &'static str = ".";

/// Regular expression matching one path separator, '/' or '\'.
pub const SEPARATOR_PATTERN: &'static str = "[/\\\\]";

/// What each path separator is replaced by when the source path becomes
/// the file name.
pub const SEPARATOR_REPLACEMENT: &'static str = "_";

/// Options that decide the final file name of a placed file.
#[derive(Clone, Copy, Debug, PartialEq, Eq, Structural)]
pub struct NamingPolicy {
    /// Name the file after its digest instead of its original name.
    pub use_hash_for_filename: bool,
    /// With a digest name, append the source file's extension.
    pub keep_file_extension: bool,
    /// With an original name, use the whole source path with separators
    /// replaced by underscores.
    pub origin_path_in_dest_name: bool,
}

/// Why no destination could be derived.
#[derive(Clone, Copy, Debug, PartialEq, Eq, Structural)]
pub enum NamingError {
    /// The extension was to be kept, but the source file has none.
    MissingExtension,
}

pub open spec fn is_separator(c: char) -> bool {
    c == '/' || c == '\\'
}

/// The path with every separator replaced by '_'.
pub open spec fn sanitized(path: Seq<char>) -> Seq<char> {
    path.map_values(|c: char| if is_separator(c) { '_' } else { c })
}

/// Index of the last occurrence of `c` in `s`, or -1 if there is none.
pub open spec fn last_index_of(s: Seq<char>, c: char) -> int
    decreases s.len(),
{
    if s.len() == 0 {
        -1
    } else if s.last() == c {
        s.len() - 1
    } else {
        last_index_of(s.drop_last(), c)
    }
}

/// The last component of a path: everything after its last '/'.
pub open spec fn base_name(path: Seq<char>) -> Seq<char> {
    path.subrange(last_index_of(path, '/') + 1, path.len() as int)
}

/// The extension of a file name: what follows its last '.', where that dot
/// is not the name's first character.
pub open spec fn extension_of(name: Seq<char>) -> Option<Seq<char>> {
    let k = last_index_of(name, '.');
    if k <= 0 {
        None
    } else {
        Some(name.subrange(k + 1, name.len() as int))
    }
}

/// `name` appended to `base` as a new path component.
pub open spec fn join(base: Seq<char>, name: Seq<char>) -> Seq<char> {
    if base.len() == 0 {
        name
    } else if base.last() == '/' {
        base + name
    } else {
        base + seq!['/'] + name
    }
}

/// The fan-out directory of a digest: two levels, named by its first and
/// its second pair of characters.
pub open spec fn fanout_dir(hex: Seq<char>, dest_root: Seq<char>) -> Seq<char> {
    join(join(dest_root, hex.subrange(0, 2)), hex.subrange(2, 4))
}

/// The final file name chosen by the naming policy.
pub open spec fn file_name_for(
    hex: Seq<char>,
    source_path: Seq<char>,
    policy: NamingPolicy,
) -> Result<Seq<char>, NamingError> {
    if !policy.use_hash_for_filename {
        if policy.origin_path_in_dest_name {
            Ok(sanitized(source_path))
        } else {
            Ok(base_name(source_path))
        }
    } else if policy.keep_file_extension {
        match extension_of(base_name(source_path)) {
            Some(ext) => Ok(hex + EXTENSION_SEPARATOR@ + ext),
            None => Err(NamingError::MissingExtension),
        }
    } else {
        Ok(hex)
    }
}

/// The pair (fan-out directory, final path) for a digest, a source path,
/// a destination root and a naming policy.
pub open spec fn destination_for(
    hex: Seq<char>,
    source_path: Seq<char>,
    dest_root: Seq<char>,
    policy: NamingPolicy,
) -> Result<(Seq<char>, Seq<char>), NamingError> {
    match file_name_for(hex, source_path, policy) {
        Ok(name) => Ok((fanout_dir(hex, dest_root), join(fanout_dir(hex, dest_root), name))),
        Err(e) => Err(e),
    }
}

/// A last index is -1 or a position in `s` that holds `c`.
pub proof fn lemma_last_index_of_bounds(s: Seq<char>, c: char)
    ensures
        -1 <= last_index_of(s, c) < s.len(),
        last_index_of(s, c) >= 0 ==> s[last_index_of(s, c)] == c,
    decreases s.len(),
{
    if s.len() > 0 && s.last() != c {
        lemma_last_index_of_bounds(s.drop_last(), c);
    }
}

/// Position of the last `c` in `s`.
fn last_index(s: &str, c: char) -> (r: Option<usize>)
    ensures
        match r {
            Some(i) => i == last_index_of(s@, c),
            None => last_index_of(s@, c) == -1,
        },
{
    let n = s.unicode_len();
    let mut found: Option<usize> = None;
    let mut i: usize = 0;
    while i < n
        invariant
            n == s@.len(),
            i <= n,
            match found {
                Some(k) => k == last_index_of(s@.subrange(0, i as int), c),
                None => last_index_of(s@.subrange(0, i as int), c) == -1,
            },
        decreases n - i,
    {
        assert(s@.subrange(0, i + 1).drop_last() == s@.subrange(0, i as int));
        if s.get_char(i) == c {
            found = Some(i);
        }
        i = i + 1;
    }
    assert(s@.subrange(0, n as int) == s@);
    found
}

/// Relies on `regex::Regex::new` and `Regex::replace_all`: the class
/// `[/\\]` matches each '/' and each '\' as a match of its own, and
/// `replace_all` puts the replacement in place of every match, leaving the
/// rest of the text as it was. The replacement "_" holds no `$`, so it is
/// taken literally.
#[verifier::external_body]
fn replace_all_matches(pattern: &str, haystack: &str, replacement: &str) -> (r: String)
    requires
        pattern@ == SEPARATOR_PATTERN@,
        replacement@ == SEPARATOR_REPLACEMENT@,
    ensures
        r@ == sanitized(haystack@),
{
    regex::Regex::new(pattern).unwrap().replace_all(haystack, replacement).into_owned()
}

/// The source path with every '/' and '\' replaced by '_'.
pub fn sanitize_path(path: &str) -> (r: String)
    ensures
        r@ == sanitized(path@),
{
    replace_all_matches(SEPARATOR_PATTERN, path, SEPARATOR_REPLACEMENT)
}

/// The last component of `path`: everything after its last '/'.
pub fn file_name_of(path: &str) -> (r: String)
    ensures
        r@ == base_name(path@),
{
    proof {
        lemma_last_index_of_bounds(path@, '/');
    }
    let n = path.unicode_len();
    let start: usize = match last_index(path, '/') {
        Some(k) => k + 1,
        None => 0,
    };
    String::from_str(path.substring_char(start, n))
}

/// The extension of file name `name`, without its leading dot: what follows
/// the last '.', unless that dot starts the name or there is none.
pub fn extension(name: &str) -> (r: Option<String>)
    ensures
        r is Some <==> extension_of(name@) is Some,
        r is Some ==> r->0@ == extension_of(name@)->0,
{
    proof {
        lemma_last_index_of_bounds(name@, '.');
    }
    let n = name.unicode_len();
    match last_index(name, '.') {
        Some(k) => {
            if k == 0 {
                None
            } else {
                Some(String::from_str(name.substring_char(k + 1, n)))
            }
        },
        None => None,
    }
}

/// `name` appended to `base` as a new path component.
pub fn join_path(base: &str, name: &str) -> (r: String)
    ensures
        r@ == join(base@, name@),
{
    let n = base.unicode_len();
    if n == 0 {
        return String::from_str(name);
    }
    let mut out = String::from_str(base);
    if base.get_char(n - 1) != '/' {
        proof {
            reveal_strlit("/");
        }
        out.append("/");
    }
    out.append(name);
    out
}

/// The fan-out directory under `dest_root` for digest `hex`:
/// `dest_root/hex[0..2]/hex[2..4]`.
pub fn dest_path_base(hex: &str, dest_root: &str) -> (r: String)
    requires
        hex@.len() >= 4,
    ensures
        r@ == fanout_dir(hex@, dest_root@),
{
    let first = join_path(dest_root, hex.substring_char(0, 2));
    join_path(first.as_str(), hex.substring_char(2, 4))
}

/// The final file name for digest `hex` and `source_path` under `policy`.
pub fn file_name(
    hex: &str,
    source_path: &str,
    policy: &NamingPolicy,
) -> (r: Result<String, NamingError>)
    ensures
        match r {
            Ok(name) => file_name_for(hex@, source_path@, *policy) == Ok::<Seq<char>, NamingError>(
                name@,
            ),
            Err(e) => file_name_for(hex@, source_path@, *policy) == Err::<Seq<char>, NamingError>(
                e,
            ),
        },
        !policy.use_hash_for_filename && policy.origin_path_in_dest_name ==> r is Ok && r->Ok_0@
            == sanitized(source_path@),
        !policy.use_hash_for_filename && !policy.origin_path_in_dest_name ==> r is Ok
            && r->Ok_0@ == base_name(source_path@),
        policy.use_hash_for_filename && !policy.keep_file_extension ==> r is Ok && r->Ok_0@
            == hex@,
        policy.use_hash_for_filename && policy.keep_file_extension ==> match extension_of(
            base_name(source_path@),
        ) {
            Some(ext) => r is Ok && r->Ok_0@ == hex@ + EXTENSION_SEPARATOR@ + ext,
            None => r == Err::<String, NamingError>(NamingError::MissingExtension),
        },
{
    if !policy.use_hash_for_filename {
        if policy.origin_path_in_dest_name {
            Ok(sanitize_path(source_path))
        } else {
            Ok(file_name_of(source_path))
        }
    } else {
        if policy.keep_file_extension {
            let base = file_name_of(source_path);
            match extension(base.as_str()) {
                Some(ext) => {
                    let mut name = String::from_str(hex);
                    name.append(EXTENSION_SEPARATOR);
                    name.append(ext.as_str());
                    Ok(name)
                },
                None => Err(NamingError::MissingExtension),
            }
        } else {
            Ok(String::from_str(hex))
        }
    }
}

/// Where a file with digest `hex`, found at `source_path`, goes under
/// `dest_root`.
#[derive(Debug)]
pub struct Destination {
    /// The two-level fan-out directory that must exist before the move.
    pub fanout_dir: String,
    /// The path the file is moved to, inside `fanout_dir`.
    pub final_path: String,
}

/// The destination of a file with digest `hex` found at `source_path`.
/// The fan-out directory is `dest_root/hex[0..2]/hex[2..4]` whatever the
/// policy; the final path is the policy's file name inside it.
pub fn dest_path(
    hex: &str,
    source_path: &str,
    dest_root: &str,
    policy: &NamingPolicy,
) -> (r: Result<Destination, NamingError>)
    requires
        hex@.len() >= 4,
    ensures
        match r {
            Ok(d) => destination_for(hex@, source_path@, dest_root@, *policy) == Ok::<
                (Seq<char>, Seq<char>),
                NamingError,
            >((d.fanout_dir@, d.final_path@)),
            Err(e) => destination_for(hex@, source_path@, dest_root@, *policy) == Err::<
                (Seq<char>, Seq<char>),
                NamingError,
            >(e),
        },
        r is Ok ==> r->Ok_0.fanout_dir@ == fanout_dir(hex@, dest_root@),
{
    let fanout = dest_path_base(hex, dest_root);
    match file_name(hex, source_path, policy) {
        Ok(name) => {
            let final_path = join_path(fanout.as_str(), name.as_str());
            Ok(Destination { fanout_dir: fanout, final_path })
        },
        Err(e) => Err(e),
    }
}

} // verus!
