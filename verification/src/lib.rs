//! Release resolution and artifact acquisition for Godot builds.
//!
//! The library turns the releases that a registry lists into versions
//! (`release`), chooses the download of a version for a platform and a
//! variant (`platform`, `select`), and unpacks the downloaded archive into
//! the directory of an install, one action at a time (`archive`, `path`,
//! `acquire`). It touches neither the network nor the disk: its caller
//! fetches what the library asks for and writes what it hands out.
//! `registry` holds what is asked of the registry and how an answer is
//! judged, `error` the failures, `text` the search that the matching rules
//! rest on, and `badge` the colours of the badges of a version.
//!
//! Every function is verified against its contract. The contracts speak of
//! the views of the data: a text is a `Seq<char>`, a list a `Seq`.

pub mod acquire;
pub mod archive;
pub mod badge;
pub mod error;
pub mod path;
pub mod platform;
pub mod registry;
pub mod release;
pub mod select;
pub mod text;
