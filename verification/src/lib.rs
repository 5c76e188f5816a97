//! A cycle-stepped core for an 8-bit handheld console: the processor's
//! fetch-decode-execute engine and the tile decoder of its display controller.

pub mod cpu;
pub mod gpu;
