//! Encodings of cross-program calls the router makes.

pub mod phoenix;
