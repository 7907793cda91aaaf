pub mod client_mods;
pub mod inject;
pub mod scripts;
pub mod shared;
