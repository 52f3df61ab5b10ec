//! The context of a build: what is packed, and how.

use vstd::prelude::*;

use crate::text::{same, texts};

verus! {

/// Whether an entry of the context is packed, by the components of its path below the context:
/// the context itself is not, nor is anything in a `.git`.
pub open spec fn is_packed(components: Seq<Seq<char>>) -> bool {
    components.len() > 0 && !components.contains(".git"@)
}

/// Whether an entry of the context is packed.
pub fn packs(components: &Vec<String>) -> (r: bool)
    ensures
        r == is_packed(texts(components@)),
{
    let ghost all = texts(components@);
    let mut i: usize = 0;
    while i < components.len()
        invariant
            i <= components@.len(),
            all == texts(components@),
            forall|j: int| 0 <= j < i ==> #[trigger] all[j] != ".git"@,
        decreases components.len() - i,
    {
        if same(components[i].as_str(), ".git") {
            assert(all[i as int] == ".git"@);
            return false;
        }
        i = i + 1;
    }
    components.len() > 0
}

/// What an entry of a context is.
#[derive(Clone, Copy, Debug, PartialEq, Eq, Structural)]
pub enum EntryKind {
    Directory,
    File,
    /// A link, or anything else.
    Other,
}

/// What becomes of an entry of a context.
#[derive(Clone, Copy, Debug, PartialEq, Eq, Structural)]
pub enum PackAction {
    Skip,
    AddDirectory,
    AddFile,
}

/// What becomes of an entry: directories and files are packed as what they are, and anything else
/// is skipped, as is what is not packed at all.
pub open spec fn packed_as(components: Seq<Seq<char>>, kind: EntryKind) -> PackAction {
    if !is_packed(components) {
        PackAction::Skip
    } else {
        match kind {
            EntryKind::Directory => PackAction::AddDirectory,
            EntryKind::File => PackAction::AddFile,
            EntryKind::Other => PackAction::Skip,
        }
    }
}

/// Says what becomes of an entry.
pub fn pack_action(components: &Vec<String>, kind: EntryKind) -> (r: PackAction)
    ensures
        r == packed_as(texts(components@), kind),
{
    if !packs(components) {
        return PackAction::Skip;
    }
    match kind {
        EntryKind::Directory => PackAction::AddDirectory,
        EntryKind::File => PackAction::AddFile,
        EntryKind::Other => PackAction::Skip,
    }
}

/// What is below an entry that is not packed is not packed either, unless the entry is the
/// context itself.
pub proof fn skipped_trees_are_skipped(above: Seq<Seq<char>>, below: Seq<Seq<char>>)
    requires
        above.len() > 0,
        !is_packed(above),
    ensures
        !is_packed(above + below),
{
    let i = choose|i: int| 0 <= i < above.len() && above[i] == ".git"@;
    assert((above + below)[i] == ".git"@);
}

/// The bytes that a tar is compressed to.
pub uninterp spec fn gzip_bytes(data: Seq<u8>) -> Option<Seq<u8>>;

/// `flate2::write::GzEncoder` over a vector, at `flate2::Compression::default`: takes all of the
/// bytes and finishes. What comes out is named [`gzip_bytes`]; `None` stands for an error of the
/// encoder. The header that it writes holds no time and no name, so that the bytes depend on the
/// data alone.
#[verifier::external_body]
fn gzip(data: &[u8]) -> (r: Option<Vec<u8>>)
    ensures
        match r {
            Some(v) => gzip_bytes(data@) == Some(v@),
            None => gzip_bytes(data@) is None,
        },
{
    let mut enc = flate2::write::GzEncoder::new(Vec::new(), flate2::Compression::default());
    std::io::Write::write_all(&mut enc, data).ok()?;
    enc.finish().ok()
}

/// Compresses the tar of a context.
pub fn compress(tar: &[u8]) -> (r: Option<Vec<u8>>)
    ensures
        match r {
            Some(v) => gzip_bytes(tar@) == Some(v@),
            None => gzip_bytes(tar@) is None,
        },
{
    gzip(tar)
}

} // verus!
