//! A flexbox layout node with an integer-coded host interface, and the
//! registry of the binary assets that the module embeds.
//!
//! - `codes`: what each integer code of the interface selects.
//! - `style`: the style of one node, and how each setter changes it.
//! - `tree`: the forest of nodes, held by taffy and kept acyclic.
//! - `assets`: which assets a build embeds, and their sizes.

pub mod assets;
pub mod codes;
pub mod style;
pub mod tree;
