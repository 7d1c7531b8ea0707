//! A growable array over an explicitly managed block of element slots.
//!
//! `buffer` owns the slots and grows them; `vector` keeps the live elements
//! at the front of the buffer; `traversal` walks them shared, exclusively or
//! by consuming the array; `laws` states what sequences of operations do.
pub mod buffer;
pub mod laws;
pub mod traversal;
pub mod vector;
