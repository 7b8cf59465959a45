//! Registration of a desktop application with the host platform's toast
//! notification subsystem.
//!
//! The platform requires two durable records before an application may raise
//! notifications that carry a stable identity: a Start Menu shortcut that
//! names the application and carries its identity properties, and a registry
//! subtree that names the local COM server launched when a notification is
//! activated. This crate holds the verified core of that bootstrapping: the
//! derivation of every path, key and value written to the two external
//! stores, and the register/deregister state-transition engine, stated and
//! proved over an explicit model of those stores. A thin platform adapter
//! performs the actual registry, filesystem and COM calls.

pub mod laws;
pub mod naming;
pub mod registration;
pub mod shell_link;
pub mod store;
pub mod system;

pub use registration::deregister;
pub use registration::register;
