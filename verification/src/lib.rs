//! A minimal byte-code virtual machine.
//!
//! A program is a flat image of 1024 bytes that serves as code and data
//! memory alike. The machine executes one four-byte instruction per step
//! against a small register file and the image.
pub mod fault;
pub mod image;
pub mod instruction;
pub mod layout;
pub mod state;
pub mod vm;
pub mod word;
