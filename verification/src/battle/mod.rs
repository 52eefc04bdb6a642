pub mod pve;
pub mod traits;
