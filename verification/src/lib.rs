//! Digitising paper: scanning pages through an external scanning tool and
//! turning them into a searchable PDF through a fixed chain of external
//! tools. The library decides; its caller asks the operator, starts the
//! programs and touches the disk.

pub mod args;
pub mod config;
pub mod fs_utils;
pub mod process;
pub mod scan;
pub mod source;
pub mod text;
pub mod tool;
