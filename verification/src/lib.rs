#![allow(non_snake_case)]
#![allow(non_camel_case_types)]
use vstd::prelude::*;

pub mod apu;
pub mod bits;
pub mod bus;
pub mod controller;
pub mod front_end;
pub mod cpu;
pub mod mappers;
pub mod ppu;
pub mod rendering;
pub mod ring_buffer;
pub mod rom;

verus! {
}
