//! Scancode decoding, line editing and command dispatch for a small
//! single-core text-mode kernel, together with the plain data models of its
//! display, descriptor table and diagnostics.

pub mod scancode;
pub mod keyboard;
pub mod editor;
pub mod screens;
pub mod command;
pub mod shell;
pub mod gdt;
pub mod vga;
pub mod screen;
pub mod printk;
pub mod stack_trace;
pub mod kfs_lib;
pub mod interrupts;
pub mod power;
