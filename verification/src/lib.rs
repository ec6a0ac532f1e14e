//! An interrupt abstraction layer for virtual device models.
//!
//! A virtual machine monitor emulates devices that signal hardware-style
//! interrupts to a guest operating system. This crate defines the in-process
//! contract between such device models and the mechanism that actually
//! injects interrupts into the guest: a capability-based trait hierarchy for
//! individual interrupt sources ([`Interrupt`], [`ConfigurableInterrupt`],
//! [`MaskableInterrupt`]) and a life-cycle manager for homogeneous
//! collections of sources ([`InterruptSourceGroup`]).
//!
//! An interrupt source is an abstract unit able to produce one interrupt
//! occurrence at a time; it is identified only by its index within a group.
//! Both pin-based lines (a device typically owns exactly one) and
//! message-signaled sources (a device may own many) fit this model, so the
//! neutral term "interrupt source" covers both.
//!
//! The contracts pin down the behaviour every implementation must show: how
//! allocation and release change a group's size, when `get` hands out a
//! handle, that a trigger arriving while a source is masked is remembered
//! and delivered on unmask rather than lost, and that a failed configuration
//! update leaves the old configuration in effect.

pub mod errors;
pub mod group;
pub mod interrupt;
pub mod laws;
pub mod line;
pub mod msi;

pub use errors::Error;
pub use group::InterruptSourceGroup;
pub use interrupt::ConfigurableInterrupt;
pub use interrupt::Interrupt;
pub use interrupt::MaskableInterrupt;
