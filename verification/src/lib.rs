//! A license-header lint: for each source unit, the text preceding the first
//! top-level declaration is compared against a canonical MPL-2.0 header by
//! character-level edit distance, and units whose leading comment strays too
//! far from the template are flagged with a warning diagnostic.

pub mod checker;
pub mod header;
pub mod similarity;
pub mod template;
