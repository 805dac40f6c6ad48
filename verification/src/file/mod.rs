//! Files and directories as the sync sees them: their metadata, the checksums
//! of their blocks, the walk that collects them, and the paths of the
//! temporary tree that a sync builds.

pub mod file_meta;
pub mod dir_meta;
pub mod checksum;
pub mod temp_tree;
pub mod file_assembler;
pub mod checksum_walk;

pub use file_meta::FileMeta;
pub use dir_meta::DirMeta;
