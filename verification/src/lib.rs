//! An index over game-engine asset archives.
//!
//! An archive holds named virtual files; each virtual file parses into a
//! table of numbered objects. A [`unity_asset_view::UnityAssetViewer`] takes
//! in archives with their parsed virtual files, gives every archive and every
//! table an identifier, reads the manifest of named assets that a table may
//! hold, and answers lookups by virtual-file name, by container path and by
//! typed pointer.
//!
//! [`viewer_state::ViewerState`] is the state of an index as mathematical
//! maps. Every operation of the index is specified by what it does to that
//! state, and [`viewer_laws`] proves what holds of the state as archives are
//! taken in.
pub mod classes;
pub mod first_match;
pub mod manifest_lemmas;
pub mod serialized_file;
pub mod type_tree;
pub mod unity_asset_view;
pub mod untityfs;
pub mod viewer_laws;
pub mod viewer_state;

pub use serialized_file::SerializedFile;
pub use untityfs::UnityFS;
