pub mod cpu;
pub mod memory;
pub mod rom;
pub mod sys;
