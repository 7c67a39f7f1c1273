//! What a consumer of the document shows: which atoms of a scenario, and
//! which file for a media atom.

use vstd::prelude::*;
use crate::document::{Atom, Scenario};
use crate::resource::{
    media_kind, resolve_in_package, resolved, same_text, MediaKind, Resource,
};

verus! {

/// What an atom holds, as its variant label says.
#[derive(Clone, Copy, Debug, PartialEq, Eq, Structural)]
pub enum AtomKind {
    /// The body is a text to show. No label, or an empty one.
    Text,
    /// The body refers to a media file of the package.
    Media(MediaKind),
    /// The atom separates parts of a scenario and is never shown.
    Marker,
    /// A label that this crate gives no meaning to.
    Unknown,
}

/// The kind of an atom with the given variant label.
pub open spec fn atom_kind(variant: Option<Seq<char>>) -> AtomKind {
    match variant {
        None => AtomKind::Text,
        Some(label) => if label.len() == 0 {
            AtomKind::Text
        } else if media_kind(label) is Some {
            AtomKind::Media(media_kind(label)->0)
        } else if label == "marker"@ {
            AtomKind::Marker
        } else {
            AtomKind::Unknown
        },
    }
}

/// Whether an atom with the given variant label is shown.
pub open spec fn is_presented(variant: Option<Seq<char>>) -> bool {
    atom_kind(variant) != AtomKind::Marker
}

/// The file that an atom with the given label and body refers to: its kind
/// and its path. An atom without a label, with a label that names no kind of
/// media, or without a body refers to none.
pub open spec fn atom_resource(
    destination: Seq<char>,
    package_name: Seq<char>,
    variant: Option<Seq<char>>,
    body: Option<Seq<char>>,
) -> Option<(MediaKind, Seq<char>)> {
    match (variant, body) {
        (Some(label), Some(reference)) => resolved(destination, package_name, reference, label),
        _ => None,
    }
}

/// The atoms of a scenario that are shown, in their order.
pub open spec fn presented_atoms(atoms: Seq<Atom>) -> Seq<Atom> {
    atoms.filter(|atom: Atom| is_presented(atom.variant.deep_view()))
}

impl Scenario {
    /// The atoms of this scenario that are shown: all but the markers, in
    /// their order.
    pub fn presented(&self) -> (shown: Vec<&Atom>)
        ensures
            shown@.len() == presented_atoms(self.atoms@).len(),
            forall|i: int|
                0 <= i < shown@.len() ==> *#[trigger] shown@[i] == presented_atoms(self.atoms@)[i],
    {
        let mut shown: Vec<&Atom> = Vec::new();
        let mut i: usize = 0;
        proof {
            reveal(Seq::filter);
            assert(self.atoms@.take(0) =~= Seq::<Atom>::empty());
        }
        while i < self.atoms.len()
            invariant
                i <= self.atoms@.len(),
                shown@.len() == presented_atoms(self.atoms@.take(i as int)).len(),
                forall|k: int|
                    0 <= k < shown@.len() ==> *#[trigger] shown@[k] == presented_atoms(
                        self.atoms@.take(i as int),
                    )[k],
            decreases self.atoms@.len() - i,
        {
            let atom = &self.atoms[i];
            proof {
                reveal(Seq::filter);
                assert(self.atoms@.take(i + 1).drop_last() =~= self.atoms@.take(i as int));
                assert(self.atoms@.take(i + 1).last() == *atom);
            }
            if atom.kind() != AtomKind::Marker {
                shown.push(atom);
            }
            i = i + 1;
        }
        proof {
            assert(self.atoms@.take(i as int) =~= self.atoms@);
        }
        shown
    }
}

impl Atom {
    /// What this atom holds.
    pub fn kind(&self) -> (kind: AtomKind)
        ensures
            kind == atom_kind(self.variant.deep_view()),
    {
        match &self.variant {
            None => AtomKind::Text,
            Some(label) => {
                let label = label.as_str();
                if label.is_empty() {
                    AtomKind::Text
                } else {
                    match MediaKind::from_label(label) {
                        Some(kind) => AtomKind::Media(kind),
                        None => if same_text(label, "marker") {
                            AtomKind::Marker
                        } else {
                            AtomKind::Unknown
                        },
                    }
                }
            },
        }
    }

    /// The media file that this atom refers to, in the package named
    /// `package_name` unpacked below `destination`.
    ///
    /// An atom without a variant label refers to no file, whatever its body
    /// holds.
    pub fn resource(&self, destination: &str, package_name: &str) -> (resource: Option<Resource>)
        ensures
            self.variant is None ==> resource is None,
            resource is Some <==> atom_resource(
                destination@,
                package_name@,
                self.variant.deep_view(),
                self.body.deep_view(),
            ) is Some,
            resource matches Some(r) ==> atom_resource(
                destination@,
                package_name@,
                self.variant.deep_view(),
                self.body.deep_view(),
            ) == Some((r.kind, r.path@)),
    {
        match (&self.variant, &self.body) {
            (Some(label), Some(body)) => resolve_in_package(
                destination,
                package_name,
                body.as_str(),
                label.as_str(),
            ),
            _ => None,
        }
    }
}

} // verus!
