//! A driver for the KSZ8863 Ethernet switch's register banks.
//!
//! Two register banks are modelled, each in its own module:
//!
//! - [`miim`] for the MII Management Interface, whose 16-bit registers are addressed per PHY.
//! - [`smi`] for the Serial Management Interface, whose 8-bit registers share one address space.
//!
//! Each module has a type for every documented register with typed access to its fields, an
//! `Address` for every register, a `State` that holds any one register, and a `RegMap` that
//! holds the state of all of them and can stand in for the interface itself.
//!
//! Access goes through a transport that implements the module's `Read` and `Write` traits,
//! wrapped by `Miim` or `Smi`. A register handle reads a register, writes it starting from its
//! default value, or modifies it starting from the value read.
use vstd::prelude::*;

pub mod miim;
pub mod smi;
pub mod word;

pub use miim::Miim;
pub use smi::Smi;

verus! {

/// The error returned when a byte names no register, or when a register state is not of the
/// requested register type.
#[derive(Clone, Copy, Debug, PartialEq, Eq, Structural)]
pub struct InvalidAddress;

} // verus!
