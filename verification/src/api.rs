//! The command line's own ends of the interfaces that the client library
//! asks for.

use vstd::prelude::*;

verus! {

/// The input and output of the command line.
#[derive(Debug, Clone, Copy)]
pub struct CliIo;

/// The command line as a user of the client library.
#[derive(Debug, Clone, Copy)]
pub struct CliApi;

} // verus!
