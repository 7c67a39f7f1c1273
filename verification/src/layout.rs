//! Where the entries of a package are stored once it is unpacked.
//!
//! A package is unpacked below `destination/package_name`. The directories of
//! an entry are kept as the archive names them; only its file name is made
//! safe. Paths are texts whose segments are separated by `/`.

use vstd::prelude::*;
use vstd::string::*;
use crate::encoding::{encode_file_name, safe_name};

verus! {

/// The name of the content document, which lies at the root of a package.
pub const CONTENT_DOCUMENT: &'static str = "content.xml";

/// The path of `segment` inside the directory `dir`.
pub open spec fn child(dir: Seq<char>, segment: Seq<char>) -> Seq<char> {
    dir + seq!['/'] + segment
}

/// The path reached from `dir` by descending through `segments` in order.
pub open spec fn descend(dir: Seq<char>, segments: Seq<Seq<char>>) -> Seq<char>
    decreases segments.len(),
{
    if segments.len() == 0 {
        dir
    } else {
        child(descend(dir, segments.drop_last()), segments.last())
    }
}

/// The texts of a sequence of strings.
pub open spec fn texts(segments: Seq<String>) -> Seq<Seq<char>> {
    Seq::new(segments.len(), |i: int| segments[i]@)
}

/// The directory below which a package is unpacked.
pub open spec fn package_root(destination: Seq<char>, package_name: Seq<char>) -> Seq<char> {
    child(destination, package_name)
}

/// The path of the content document of an unpacked package.
pub open spec fn content_document(destination: Seq<char>, package_name: Seq<char>) -> Seq<char> {
    child(package_root(destination, package_name), CONTENT_DOCUMENT@)
}

/// The directory in which an entry is stored: the package root followed by
/// every segment of the entry but the last, unchanged.
pub open spec fn entry_directory(
    destination: Seq<char>,
    package_name: Seq<char>,
    entry: Seq<Seq<char>>,
) -> Seq<char>
    recommends
        entry.len() > 0,
{
    descend(package_root(destination, package_name), entry.drop_last())
}

/// The file in which an entry is stored: its directory followed by the safe
/// form of its last segment.
pub open spec fn entry_file(
    destination: Seq<char>,
    package_name: Seq<char>,
    entry: Seq<Seq<char>>,
) -> Seq<char>
    recommends
        entry.len() > 0,
{
    child(entry_directory(destination, package_name, entry), safe_name(entry.last()))
}

/// An archive entry: its relative path, segment by segment, and its bytes.
pub struct EntryModel {
    pub path: Seq<Seq<char>>,
    pub bytes: Seq<u8>,
}

/// Whether an entry is stored at `path`.
pub open spec fn targets(
    destination: Seq<char>,
    package_name: Seq<char>,
    entry: EntryModel,
    path: Seq<char>,
) -> bool {
    entry.path.len() > 0 && entry_file(destination, package_name, entry.path) == path
}

/// The bytes that unpacking `entries` in order leaves at `path`: those of the
/// last entry stored there, if there is one.
pub open spec fn last_write(
    destination: Seq<char>,
    package_name: Seq<char>,
    entries: Seq<EntryModel>,
    path: Seq<char>,
) -> Option<Seq<u8>>
    decreases entries.len(),
{
    if entries.len() == 0 {
        None
    } else if targets(destination, package_name, entries.last(), path) {
        Some(entries.last().bytes)
    } else {
        last_write(destination, package_name, entries.drop_last(), path)
    }
}

/// The files found after `entries` were unpacked in order over `files`, a
/// map from paths to contents. Each entry replaces what lay at its target,
/// and nothing else is touched.
pub open spec fn unpacked(
    files: Map<Seq<char>, Seq<u8>>,
    destination: Seq<char>,
    package_name: Seq<char>,
    entries: Seq<EntryModel>,
) -> Map<Seq<char>, Seq<u8>>
    decreases entries.len(),
{
    if entries.len() == 0 {
        files
    } else {
        let before = unpacked(files, destination, package_name, entries.drop_last());
        if entries.last().path.len() > 0 {
            before.insert(
                entry_file(destination, package_name, entries.last().path),
                entries.last().bytes,
            )
        } else {
            before
        }
    }
}

/// After unpacking, a path holds what the last entry stored there wrote, or
/// what it held before where no entry is stored there.
pub proof fn lemma_unpacked_at(
    files: Map<Seq<char>, Seq<u8>>,
    destination: Seq<char>,
    package_name: Seq<char>,
    entries: Seq<EntryModel>,
    path: Seq<char>,
)
    ensures
        last_write(destination, package_name, entries, path) matches Some(bytes) ==> {
            &&& unpacked(files, destination, package_name, entries).dom().contains(path)
            &&& unpacked(files, destination, package_name, entries)[path] == bytes
        },
        last_write(destination, package_name, entries, path) is None ==> {
            &&& unpacked(files, destination, package_name, entries).dom().contains(path)
                == files.dom().contains(path)
            &&& unpacked(files, destination, package_name, entries)[path] == files[path]
        },
    decreases entries.len(),
{
    if entries.len() > 0 {
        lemma_unpacked_at(files, destination, package_name, entries.drop_last(), path);
    }
}

/// Unpacking the same entries a second time changes nothing.
pub proof fn law_unpacking_twice_changes_nothing(
    files: Map<Seq<char>, Seq<u8>>,
    destination: Seq<char>,
    package_name: Seq<char>,
    entries: Seq<EntryModel>,
)
    ensures
        unpacked(
            unpacked(files, destination, package_name, entries),
            destination,
            package_name,
            entries,
        ) == unpacked(files, destination, package_name, entries),
{
    let once = unpacked(files, destination, package_name, entries);
    let twice = unpacked(once, destination, package_name, entries);
    assert forall|path: Seq<char>| #[trigger]
        twice.dom().contains(path) == once.dom().contains(path) by {
        lemma_unpacked_at(files, destination, package_name, entries, path);
        lemma_unpacked_at(once, destination, package_name, entries, path);
    }
    assert forall|path: Seq<char>| #[trigger] twice[path] == once[path] by {
        lemma_unpacked_at(files, destination, package_name, entries, path);
        lemma_unpacked_at(once, destination, package_name, entries, path);
    }
    assert(twice.dom() =~= once.dom());
    assert(twice =~= once);
}

/// Unpacking other entries over an unpacked package replaces the files that
/// the later entries are stored at and leaves every other file as the
/// earlier unpacking wrote it: nothing is removed.
pub proof fn law_later_unpacking_wins_and_removes_nothing(
    files: Map<Seq<char>, Seq<u8>>,
    destination: Seq<char>,
    package_name: Seq<char>,
    earlier: Seq<EntryModel>,
    later: Seq<EntryModel>,
    path: Seq<char>,
)
    ensures
        ({
            let first = unpacked(files, destination, package_name, earlier);
            let second = unpacked(first, destination, package_name, later);
            match last_write(destination, package_name, later, path) {
                Some(bytes) => second.dom().contains(path) && second[path] == bytes,
                None => second.dom().contains(path) == first.dom().contains(path) && second[path]
                    == first[path],
            }
        }),
{
    let first = unpacked(files, destination, package_name, earlier);
    lemma_unpacked_at(first, destination, package_name, later, path);
}

/// Where one archive entry goes.
#[derive(Debug)]
pub struct EntryTarget {
    /// The directory to create, with every directory above it.
    pub directory: String,
    /// The file that receives the bytes of the entry.
    pub file: String,
}

/// Appends `segment` to the path `dir`.
pub fn child_path(dir: &str, segment: &str) -> (path: String)
    ensures
        path@ == child(dir@, segment@),
{
    let mut path = dir.to_owned();
    path.append("/");
    path.append(segment);
    proof {
        reveal_strlit("/");
        assert("/"@ =~= seq!['/']);
    }
    path
}

/// The directory below which the package named `package_name` is unpacked.
pub fn package_root_path(destination: &str, package_name: &str) -> (path: String)
    ensures
        path@ == package_root(destination@, package_name@),
{
    child_path(destination, package_name)
}

/// The path at which the content document of an unpacked package is
/// expected. Whether a file exists there is for the caller to find out.
pub fn content_document_path(destination: &str, package_name: &str) -> (path: String)
    ensures
        path@ == content_document(destination@, package_name@),
{
    let root = package_root_path(destination, package_name);
    child_path(root.as_str(), CONTENT_DOCUMENT)
}

/// Decides where the archive entry with the relative path `entry`, given
/// segment by segment, is stored. An entry without segments names no file
/// and has no target.
pub fn entry_target(
    destination: &str,
    package_name: &str,
    entry: &Vec<String>,
) -> (target: Option<EntryTarget>)
    ensures
        target is None <==> entry@.len() == 0,
        target matches Some(t) ==> {
            &&& t.directory@ == entry_directory(destination@, package_name@, texts(entry@))
            &&& t.file@ == entry_file(destination@, package_name@, texts(entry@))
        },
{
    let n: usize = entry.len();
    if n == 0 {
        return None;
    }
    let ghost parents = texts(entry@).drop_last();
    let mut directory = package_root_path(destination, package_name);
    let mut i: usize = 0;
    proof {
        assert(parents.take(0) =~= Seq::<Seq<char>>::empty());
    }
    while i < n - 1
        invariant
            n == entry@.len(),
            n > 0,
            i <= n - 1,
            parents == texts(entry@).drop_last(),
            directory@ == descend(
                package_root(destination@, package_name@),
                parents.take(i as int),
            ),
        decreases n - 1 - i,
    {
        proof {
            assert(parents.take(i + 1).drop_last() =~= parents.take(i as int));
            assert(parents.take(i + 1).last() == entry@[i as int]@);
        }
        directory = child_path(directory.as_str(), entry[i].as_str());
        i = i + 1;
    }
    proof {
        assert(parents.take(i as int) =~= parents);
        assert(texts(entry@).last() == entry@[n - 1]@);
    }
    let name = encode_file_name(entry[n - 1].as_str());
    let file = child_path(directory.as_str(), name.as_str());
    Some(EntryTarget { directory, file })
}

} // verus!
