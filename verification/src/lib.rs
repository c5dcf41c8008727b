//! A microprogrammed 16-bit teaching CPU: its instruction decoder, register
//! file, bus registers and control unit, each written as a combinational
//! kernel over plain bit values (what a clock edge latches is returned as
//! the "next" value) and proved against its specification.

#![allow(non_snake_case)]

pub mod alu;
pub mod clocking;
pub mod control_laws;
pub mod control_unit;
pub mod cpu;
pub mod decode_unit;
pub mod io_unit;
pub mod register;
pub mod register_file;
pub mod decode_laws;
pub mod exec_laws;
pub mod microprogram;
