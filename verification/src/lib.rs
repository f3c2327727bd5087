//! Connect-five on a gravity board: the board encoding, the move engine, the
//! win detector, and the turn arbitration that two polling clients share.

pub mod grid;
pub mod text;
pub mod error;
pub mod codec;
pub mod lines;
pub mod runs;
pub mod win;
pub mod moves;
pub mod models;
pub mod turn;
pub mod game;
pub mod synchronizer;
pub mod game_page;
pub mod register;
