//! Media references and the files they stand for.
//!
//! The body of a media atom names a file of the package: `@` followed by
//! the file name. Once the package is unpacked, the file lies in the folder
//! of its kind, under the name that extraction gave it. A body is encoded
//! whole and loses its first character afterwards, in this order.

use vstd::prelude::*;
use vstd::string::*;
use vstd::utf8::*;
use crate::encoding::{
    drop_first_char, encoded_name, has_sentinel, lemma_encoded_name_ascii,
    lemma_encoded_sentinel, percent_encode, safe_name, without_first,
};
use crate::layout::{
    child, child_path, descend, entry_file, package_root, package_root_path,
};

verus! {

/// Whether two texts hold the same characters.
pub fn same_text(a: &str, b: &str) -> (same: bool)
    ensures
        same == (a@ == b@),
{
    let x = a.as_bytes();
    let y = b.as_bytes();
    proof {
        encode_utf8_decode_utf8(a@);
        encode_utf8_decode_utf8(b@);
    }
    if x.len() != y.len() {
        return false;
    }
    let mut i: usize = 0;
    while i < x.len()
        invariant
            i <= x@.len(),
            x@.len() == y@.len(),
            x@ == encode_utf8(a@),
            y@ == encode_utf8(b@),
            forall|k: int| 0 <= k < i ==> x@[k] == y@[k],
        decreases x@.len() - i,
    {
        if x[i] != y[i] {
            return false;
        }
        i = i + 1;
    }
    proof {
        assert(x@ =~= y@);
    }
    true
}

/// The kinds of media that an atom can refer to.
#[derive(Clone, Copy, Debug, PartialEq, Eq, Structural)]
pub enum MediaKind {
    Audio,
    Image,
    Video,
}

/// The kind of media that a variant label stands for, if it stands for one.
pub open spec fn media_kind(label: Seq<char>) -> Option<MediaKind> {
    if label == "voice"@ {
        Some(MediaKind::Audio)
    } else if label == "image"@ {
        Some(MediaKind::Image)
    } else if label == "video"@ {
        Some(MediaKind::Video)
    } else {
        None
    }
}

/// The folder of a package that holds the media of a kind.
pub open spec fn media_folder(kind: MediaKind) -> Seq<char> {
    match kind {
        MediaKind::Audio => "Audio"@,
        MediaKind::Image => "Images"@,
        MediaKind::Video => "Video"@,
    }
}

/// The on-disk name of the media file that `body` refers to: the encoded
/// body without its first character.
///
/// For a body that opens with the sentinel, that character is the sentinel.
/// For any other body it is whatever the encoding opens with: the first
/// character of the body, or the `%` of the escape that stands for it.
pub open spec fn resource_name(body: Seq<char>) -> Seq<char> {
    without_first(encoded_name(body))
}

/// The path of the media file of kind `kind` that `body` refers to, in the
/// package named `package_name` unpacked below `destination`.
pub open spec fn resource_path(
    destination: Seq<char>,
    package_name: Seq<char>,
    kind: MediaKind,
    body: Seq<char>,
) -> Seq<char> {
    child(
        child(package_root(destination, package_name), media_folder(kind)),
        resource_name(body),
    )
}

impl MediaKind {
    /// The kind that a variant label stands for: `voice`, `image` or
    /// `video`. Any other label stands for none.
    pub fn from_label(label: &str) -> (kind: Option<MediaKind>)
        ensures
            kind == media_kind(label@),
    {
        if same_text(label, "voice") {
            Some(MediaKind::Audio)
        } else if same_text(label, "image") {
            Some(MediaKind::Image)
        } else if same_text(label, "video") {
            Some(MediaKind::Video)
        } else {
            None
        }
    }

    /// The folder of a package that holds the media of this kind.
    pub fn folder(&self) -> (name: &'static str)
        ensures
            name@ == media_folder(*self),
    {
        match self {
            MediaKind::Audio => "Audio",
            MediaKind::Image => "Images",
            MediaKind::Video => "Video",
        }
    }
}

/// A media file of an unpacked package.
#[derive(Debug)]
pub struct Resource {
    /// What the file holds.
    pub kind: MediaKind,
    /// Where the file is expected. Nothing says that it exists.
    pub path: String,
}

/// What `resolve` returns, as a value of the model.
pub open spec fn resolved(
    destination: Seq<char>,
    package_name: Seq<char>,
    body: Seq<char>,
    variant: Seq<char>,
) -> Option<(MediaKind, Seq<char>)> {
    match media_kind(variant) {
        Some(kind) => Some((kind, resource_path(destination, package_name, kind, body))),
        None => None,
    }
}

/// For a body that opens with the sentinel, dropping the first character
/// after encoding gives the same name as encoding what follows the sentinel:
/// the sentinel is never escaped. This is the name that extraction gives to
/// an entry with that raw name.
pub proof fn law_resource_name_is_safe_name(body: Seq<char>)
    requires
        has_sentinel(body),
    ensures
        resource_name(body) == encoded_name(body.drop_first()),
        resource_name(body) == safe_name(body),
{
    lemma_encoded_sentinel(body);
}

/// A media reference resolves to the file that extraction wrote for the
/// entry it names: the entry in the folder of its kind whose raw name is the
/// body, with or without the sentinel.
pub proof fn law_reference_finds_extracted_file(
    destination: Seq<char>,
    package_name: Seq<char>,
    kind: MediaKind,
    body: Seq<char>,
    raw: Seq<char>,
)
    requires
        has_sentinel(body),
        raw == body || (raw == body.drop_first() && !has_sentinel(raw)),
    ensures
        entry_file(destination, package_name, seq![media_folder(kind), raw]) == resource_path(
            destination,
            package_name,
            kind,
            body,
        ),
{
    law_resource_name_is_safe_name(body);
    let entry = seq![media_folder(kind), raw];
    let root = package_root(destination, package_name);
    assert(entry.drop_last() =~= seq![media_folder(kind)]);
    assert(entry.drop_last().drop_last() =~= Seq::<Seq<char>>::empty());
    assert(descend(root, entry.drop_last().drop_last()) == root);
    assert(descend(root, entry.drop_last()) == child(root, media_folder(kind)));
}

/// The on-disk name of the media file that `body` refers to: the body is
/// percent-encoded whole, and the first character of the result is dropped,
/// whether or not it is the sentinel.
pub fn resource_file_name(body: &str) -> (name: String)
    ensures
        name@ == resource_name(body@),
{
    let encoded = percent_encode(body);
    proof {
        lemma_encoded_name_ascii(body@);
    }
    drop_first_char(encoded)
}

/// Finds the file that the body of an atom refers to, in the package named
/// `package_name`.
///
/// `variant` is the label of the atom. Where it names no kind of media the
/// atom is no media reference and nothing is returned. Otherwise the body is
/// encoded as file names are, the first character of the result is dropped,
/// and the file lies in the folder of its kind below the package root.
pub fn resolve_in_package(
    destination: &str,
    package_name: &str,
    body: &str,
    variant: &str,
) -> (resource: Option<Resource>)
    ensures
        resource is Some <==> media_kind(variant@) is Some,
        resource matches Some(r) ==> resolved(destination@, package_name@, body@, variant@)
            == Some((r.kind, r.path@)),
{
    match MediaKind::from_label(variant) {
        Some(kind) => {
            let root = package_root_path(destination, package_name);
            let folder = child_path(root.as_str(), kind.folder());
            let name = resource_file_name(body);
            let path = child_path(folder.as_str(), name.as_str());
            Some(Resource { kind, path })
        },
        None => None,
    }
}

/// The final component of a path, as `std::path::Path::file_name` finds it
/// by the path syntax of the platform: the name of the file or directory
/// that the path ends in, or nothing for a path that ends in none.
pub uninterp spec fn final_component_of(path: Seq<char>) -> Option<Seq<char>>;

/// What [`resolve`] finds for a package whose path has the final component
/// `component`: what [`resolved`] gives for that name, and nothing for a
/// path without a final component.
pub open spec fn resolved_under(
    destination: Seq<char>,
    component: Option<Seq<char>>,
    body: Seq<char>,
    variant: Seq<char>,
) -> Option<(MediaKind, Seq<char>)> {
    match component {
        Some(package_name) => resolved(destination, package_name, body, variant),
        None => None,
    }
}

/// Calls `std::path::Path::file_name`.
///
/// Trusted: the result depends on the text of the path alone. Which
/// component it is, is not stated.
#[verifier::external_body]
fn final_component(path: &str) -> (name: Option<String>)
    ensures
        name.deep_view() == final_component_of(path@),
{
    let name = std::path::Path::new(path).file_name();
    name.and_then(|name| name.to_str()).map(|name| name.to_owned())
}

/// Finds the file that the body of an atom refers to, in the package whose
/// path has the final component `component`.
///
/// A path without a final component names no package, and nothing is
/// returned for it. Otherwise the result is that of [`resolve_in_package`]
/// for the package named by the component.
pub fn resolve_under(
    destination: &str,
    component: Option<&str>,
    body: &str,
    variant: &str,
) -> (resource: Option<Resource>)
    ensures
        resource is Some <==> component is Some && media_kind(variant@) is Some,
        resource matches Some(r) ==> resolved_under(
            destination@,
            component.deep_view(),
            body@,
            variant@,
        ) == Some((r.kind, r.path@)),
{
    match component {
        Some(package_name) => resolve_in_package(destination, package_name, body, variant),
        None => None,
    }
}

/// Finds the file that the body of an atom refers to, in the package that
/// was read from `package_path`.
///
/// The package is unpacked under the final component of its path. A file is
/// found exactly when the path has a final component and `variant` names a
/// kind of media; it is the file that [`resolve_in_package`] finds in the
/// package named by that component.
pub fn resolve(
    destination: &str,
    package_path: &str,
    body: &str,
    variant: &str,
) -> (resource: Option<Resource>)
    ensures
        resource is Some <==> final_component_of(package_path@) is Some && media_kind(variant@)
            is Some,
        resource matches Some(r) ==> resolved_under(
            destination@,
            final_component_of(package_path@),
            body@,
            variant@,
        ) == Some((r.kind, r.path@)),
{
    let component = final_component(package_path);
    match &component {
        Some(package_name) => resolve_under(
            destination,
            Some(package_name.as_str()),
            body,
            variant,
        ),
        None => resolve_under(destination, None, body, variant),
    }
}

} // verus!
