//! The command line of the program: what it says and what it comes to.

pub mod parser;
pub mod runner;
