//! Page table entries of the x64 architecture.
//!
//! An entry is one 64-bit word that packs permission bits, bookkeeping bits and the address of
//! the frame or table it refers to. [`x64::structs::PageTableEntryX64`] is that word together
//! with the operations a page table walker performs on it. Every operation is specified over
//! [`x64::structs::EntryFields`], the entry's fields as plain values, and proved against it.
//!
//! The library computes words and decides what has to happen to the processor; it touches
//! neither memory nor registers. An operation that changes a mapping returns the address whose
//! cached translation became stale, and its caller invalidates it.

pub mod attributes;
pub mod error;
pub mod structs;
pub mod text;
pub mod x64;

pub use attributes::MemoryAttributes;
pub use error::PtError;
