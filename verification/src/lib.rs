//! A verified model of a bare-metal reset-to-entry bootstrap.
//!
//! The model covers the three layers such a system has, in the order they
//! execute: the reset sequencer (stack and global-pointer setup, relocation of
//! initialized data, zero-fill of uninitialized data, register clearing), the
//! entry function (poll a status register, echo one byte to a data register),
//! and the fatal halt, the single terminal state that nothing leaves.

pub mod boot;
pub mod entry;
pub mod mem;
pub mod registers;
pub mod sequencer;
pub mod step;
