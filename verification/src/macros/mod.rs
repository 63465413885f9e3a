//! What the extraction of native declarations computes: the types it
//! recognises, the names it rewrites and the documentation it keeps.
pub mod attrs;
pub mod derive_fn;
pub mod derive_struct;
pub mod docs;
pub mod fn_;
pub mod impl_;
pub mod meta;
pub mod struct_;
pub mod syntax;
pub mod types;
pub mod util;
