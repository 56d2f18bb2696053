//! Enumeration, up to symmetry, of the connected edge-induced subgraphs of the
//! dodecahedron graph: the edge-adjacency table, the canonicalisation of edge
//! sets under the symmetry group, and the level-by-level search.

pub mod bitmap;
pub mod frontier;
pub mod graph;
pub mod symmetry;
pub mod laws;
