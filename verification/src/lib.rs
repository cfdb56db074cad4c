//! A hierarchical mesh scene model: a tree of nodes that are geometry,
//! groups of other meshes, or both, each offset from its parent by an
//! optional translation. The library builds such trees from a descriptor
//! store and flattens them into lists of geometry positioned in the
//! coordinate space of the tree root.

pub mod kv;
pub mod flatlist;
pub mod mesh;
pub mod polymesh;
pub mod transform;
