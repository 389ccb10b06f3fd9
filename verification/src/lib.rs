//! Core of a side-scrolling arcade game: a ball under constant gravity must
//! fly through the gaps of an endless stream of pipes.
//!
//! All geometry is integer, in fixed-point coordinate units of half a pixel,
//! so that the gravity of half a pixel per tick squared is an exact integer.
//! Every public operation carries a contract that pins down the new world
//! state; the one source of nondeterminism, the random gap placement at spawn
//! time, is bounded by its contract and quantified existentially.

pub mod ball;
pub mod config;
pub mod laws;
pub mod pipe;
mod rng;
pub mod world;
