//! Small, self-contained building blocks, one module per topic, each with a
//! contract that Verus checks.

mod chance;
pub mod advanced;
pub mod blog;
pub mod collections;
pub mod concepts;
pub mod concurrency;
pub mod depender;
pub mod disambiguation;
pub mod enums;
pub mod errors;
pub mod functional;
pub mod generics;
pub mod guessing;
pub mod gui;
pub mod lgrep;
pub mod macros;
pub mod modules;
pub mod newtype;
pub mod numerals;
pub mod overrider;
pub mod ownership;
pub mod patterns;
pub mod pointers;
pub mod samples;
pub mod structs;
pub mod summary;
pub mod text;
