//! Core logic of a small festive web service: a 4x4 connect-four style board
//! game with win/draw detection and a seeded random fill, plus the pure
//! decision logic of the surrounding endpoints (manifest evaluation, checksum
//! layers, address arithmetic, pagination planning).

pub mod addr;
pub mod decor;
pub mod game;
pub mod manifest;
pub mod quotes;
pub mod text;
