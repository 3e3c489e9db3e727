//! Phoenix program logic: its instruction set and the decisions of its
//! ephemeral-rollup deposit, withdrawal, session and delegation flows.

pub mod instruction;
pub mod flows;
