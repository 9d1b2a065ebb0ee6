//! Decision logic for bringing up a wireless access point: resolving the
//! static network identity, supervising the access point's lifecycle,
//! gating startup on readiness, and planning the single-lease DHCP service.

pub mod addr;
pub mod supervisor;
pub mod supervisor_laws;
pub mod startup;
pub mod config;
pub mod dhcp;
pub mod bringup;
