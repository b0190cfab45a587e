//! Planning the placement of one source file: digest once, then derive
//! the fan-out directory and the final path from that digest.

use vstd::prelude::*;
use crate::hash::{hex_string, HashType};
use crate::naming::{
    dest_path,
    destination_for,
    file_name_for,
    join,
    Destination,
    NamingError,
    NamingPolicy,
};

verus! {

/// What a traversal entry is.
#[derive(Clone, Copy, Debug, PartialEq, Eq, Structural)]
pub enum EntryKind {
    File,
    Directory,
    Other,
}

/// Only regular files are placed; directories and anything else that a
/// traversal yields are passed over without error.
pub fn should_place(kind: EntryKind) -> (r: bool)
    ensures
        r == (kind == EntryKind::File),
{
    match kind {
        EntryKind::File => true,
        _ => false,
    }
}

/// One source file to place: where it is, where the tree is rooted, and
/// how its digest and name are chosen.
#[derive(Debug)]
pub struct PlacementRequest {
    pub source_path: String,
    pub dest_root: String,
    pub hash_type: HashType,
    pub policy: NamingPolicy,
}

/// The destination of a file with the given contents, found at
/// `source_path`, under `dest_root`.
pub open spec fn placement_for(
    contents: Seq<u8>,
    source_path: Seq<char>,
    dest_root: Seq<char>,
    hash_type: HashType,
    policy: NamingPolicy,
) -> Result<(Seq<char>, Seq<char>), NamingError> {
    destination_for(hash_type.hex_digest(contents), source_path, dest_root, policy)
}

impl PlacementRequest {
    /// Computes where the file goes, given its contents. The digest is
    /// computed once and used for both the directory and the file name.
    pub fn plan(&self, contents: &[u8]) -> (r: Result<Destination, NamingError>)
        ensures
            match r {
                Ok(d) => placement_for(
                    contents@,
                    self.source_path@,
                    self.dest_root@,
                    self.hash_type,
                    self.policy,
                ) == Ok::<(Seq<char>, Seq<char>), NamingError>((d.fanout_dir@, d.final_path@)),
                Err(e) => placement_for(
                    contents@,
                    self.source_path@,
                    self.dest_root@,
                    self.hash_type,
                    self.policy,
                ) == Err::<(Seq<char>, Seq<char>), NamingError>(e),
            },
    {
        let hex = hex_string(contents, self.hash_type);
        dest_path(hex.as_str(), self.source_path.as_str(), self.dest_root.as_str(), &self.policy)
    }
}

/// Whatever the naming policy, a derived fan-out directory is
/// `dest_root/hex[0..2]/hex[2..4]`, and the final path is the policy's file
/// name inside it, two levels under `dest_root`.
pub proof fn lemma_fanout_ignores_policy(
    hex: Seq<char>,
    source_path: Seq<char>,
    dest_root: Seq<char>,
    policy: NamingPolicy,
)
    requires
        hex.len() >= 4,
    ensures
        destination_for(hex, source_path, dest_root, policy) is Ok ==> {
            let (dir, path) = destination_for(hex, source_path, dest_root, policy)->Ok_0;
            &&& dir == join(join(dest_root, hex.subrange(0, 2)), hex.subrange(2, 4))
            &&& path == join(dir, file_name_for(hex, source_path, policy)->Ok_0)
        },
{
}

/// Content, not path, decides placement: the same contents found at two
/// source paths get the same fan-out directory, and with digest names
/// without extensions the same final path.
pub proof fn lemma_placement_by_content(
    contents: Seq<u8>,
    first_path: Seq<char>,
    second_path: Seq<char>,
    dest_root: Seq<char>,
    hash_type: HashType,
    policy: NamingPolicy,
)
    ensures
        placement_for(contents, first_path, dest_root, hash_type, policy) is Ok && placement_for(
            contents,
            second_path,
            dest_root,
            hash_type,
            policy,
        ) is Ok ==> placement_for(contents, first_path, dest_root, hash_type, policy)->Ok_0.0
            == placement_for(contents, second_path, dest_root, hash_type, policy)->Ok_0.0,
        policy.use_hash_for_filename && !policy.keep_file_extension ==> placement_for(
            contents,
            first_path,
            dest_root,
            hash_type,
            policy,
        ) == placement_for(contents, second_path, dest_root, hash_type, policy),
{
}

} // verus!
