//! Safe building blocks for a filesystem driver that lives inside an
//! operating-system kernel: the kernel's error codes as a typed value, the
//! per-mount handle through which a driver attaches its private state, the
//! registration lifecycle, and the bounded buffer that log lines are built in.

pub mod error;
pub mod filesystem;
pub mod printk;
