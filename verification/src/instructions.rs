//! The instructions, family by family: for each one, what it does to the
//! machine state as a specification function, and the handler that does it.

pub mod arithmetic;
pub mod control;
pub mod flags;
pub mod load_store;
pub mod logic;
pub mod shift;
pub mod stack;
