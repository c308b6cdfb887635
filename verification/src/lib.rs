//! An IRC server core: the wire-exact reply formatter, the line parser, the
//! session and registry model, and the command dispatcher, each with a
//! machine-checked contract.

pub mod ircd;
