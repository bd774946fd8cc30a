//! An interactive file explorer, reduced to the parts that decide: parsing a
//! command line, formatting sizes and listings, reporting an entry's metadata,
//! and the step function of the command loop. Reading input and asking the
//! operating system for metadata are left to the caller.

pub mod arith;
pub mod command;
pub mod inspect;
pub mod listing;
pub mod session;
pub mod size;
pub mod text;
