//! Classification of every ordered triple of typing fingers into an
//! ergonomic trigram category, and the lookup table built from it.

pub mod finger;
pub mod trigram;
pub mod table;
