//! Xiangqi (Chinese chess) engine logic and game-side bookkeeping,
//! specified and proved with Verus.

pub mod book;
pub mod collections;
pub mod difficulty;
pub mod endgame;
pub mod engine_bundle;
pub mod engine_session;
pub mod eval;
pub mod exchange;
pub mod fen_laws;
pub mod gui;
pub mod rng;
pub mod search;
pub mod text;
pub mod tt;
pub mod uci;
pub mod xiangqi;
