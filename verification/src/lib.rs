//! Resolution engine for six-line (Liu Yao) hexagram casts.
//!
//! A cast of six line symbols is decoded into a primary hexagram and its
//! changed hexagram, both annotated with earthly branches, five elements,
//! six-relative labels, World/Response roles and the clash / combination /
//! generation / domination relations against a month and a day branch.

pub mod assemble;
pub mod calendar;
pub mod elements;
pub mod gua;
pub mod palace;
pub mod yao;
