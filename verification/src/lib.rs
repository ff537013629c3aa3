//! Conversion logic between unstructured meshes and CGNS files: element-type tables,
//! zone selection, connectivity re-indexing and section layout.
pub mod connectivity;
pub mod element;
pub mod error;
pub mod read;
pub mod roundtrip;
pub mod write;

pub use error::Error;
