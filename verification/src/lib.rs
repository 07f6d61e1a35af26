//! Game rules of the coin-tossing arena: who owns a coin and how it is
//! coloured, how the arena reacts to visitors and judges sleeping coins,
//! how a hand holds and throws a coin, how Bucky jumps, slides and hops
//! off walls, and which animation command a clip request becomes.
//!
//! Everything that touches the engine (nodes, physics, vectors, random
//! numbers) lives outside this crate; the functions here take plain
//! observations and return plain decisions.
#![allow(non_camel_case_types)]

pub mod coin;
pub mod bucky;
pub mod animation;
pub mod arena;
pub mod input;
pub mod hand;
