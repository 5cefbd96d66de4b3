//! Built-in per-locale keyboard layouts.

pub mod en_us;
pub mod es_es;
