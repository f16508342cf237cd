//! Memory areas: their address ranges and their access permissions.
pub mod vm_area;
pub mod vm_perms;
pub mod vm_range;
