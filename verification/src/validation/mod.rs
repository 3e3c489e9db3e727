//! Account validation helpers.

pub mod loaders;
