//! Host side of the boundary between a WebAssembly smart contract and the
//! enclave that runs it.
//!
//! A loaded contract calls into this crate to reach its encrypted state, to
//! convert addresses, to query other modules and to pay for what it uses.
//! Every offset and length it hands over is treated as hostile: buffers are
//! moved through the Region protocol of [`region`], the cost of each call is
//! charged against a hard limit, and every failure is a value, never a panic.
//!
//! - [`region`] says what a Region is and what reading and writing through
//!   one means, over a memory seen as a sequence of bytes.
//! - [`instance`] holds the execution context of one invocation: it moves
//!   bytes between host and guest and meters the gas.
//! - [`host`] holds the calls that the guest makes.
//! - [`address`] converts addresses between text and canonical bytes.
//! - [`abi`] reads the integers that cross the boundary.
//! - [`errors`] lists what can go wrong.
//! - [`guest`], [`codec`] and [`text`] are the calls into the interpreter,
//!   the address codec and the standard library that nothing here proves:
//!   each states what the call is taken to do.

pub mod abi;
pub mod address;
pub mod codec;
pub mod errors;
pub mod guest;
pub mod host;
pub mod instance;
pub mod region;
pub mod text;
