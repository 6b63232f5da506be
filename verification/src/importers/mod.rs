//! Import from and export to the formats of other password managers.

pub mod bitwarden;
