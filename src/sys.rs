pub mod errors;
pub mod interfaces;
pub mod rom_file;
