//! A growable, contiguous buffer of slots with geometric growth, together
//! with a handful of small verified utilities.

pub mod borrowing;
pub mod buffer_laws;
pub mod buffer_model;
pub mod checked_add;
pub mod closures;
pub mod collections;
pub mod expressions;
pub mod guessing;
pub mod modularity;
pub mod my_vec;
pub mod polymorphism;
pub mod traits;

pub use my_vec::MyVec;
