//! The passthrough requests of the two platforms, as plain values: what is
//! put into the platform's header before the call, and what is read out of
//! it afterwards.

pub mod linux;
pub mod windows;
