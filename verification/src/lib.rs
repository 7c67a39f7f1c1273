//! Loader core for quiz packages: a zip container that holds one content
//! document and media files under `Audio/`, `Images/` and `Video/`.
//!
//! The crate holds the decisions of a loader, each with a proved contract:
//!
//! - [`encoding`]: how a file name is made safe for the host file system;
//! - [`layout`]: where every archive entry is stored once a package is
//!   unpacked;
//! - [`resource`]: which file a media reference of the document stands for;
//! - [`document`]: the document tree, from the package down to the atoms;
//! - [`presentation`]: what an atom holds and which atoms are shown;
//! - [`outline`]: the rounds, themes and questions of a package in reading
//!   order.
//!
//! Reading the archive, writing files and parsing the content document are
//! left to the caller, who hands over plain strings and vectors.

pub mod document;
pub mod encoding;
pub mod layout;
pub mod outline;
pub mod presentation;
pub mod resource;
