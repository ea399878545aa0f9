//! A minimal fetch-decode-execute core for a CHIP-8 style instruction set.
//!
//! The machine owns 4096 bytes of memory, sixteen 8-bit registers and an
//! instruction pointer. Instructions are two bytes wide and big-endian. Two
//! instruction families are recognised: the all-zero halt word and the
//! register add-with-carry `8xy4`.
pub mod cpu;
pub mod decode;
pub mod laws;
pub mod machine;
