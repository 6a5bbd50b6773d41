pub mod definitions;
pub mod discovery;
pub mod keys;
pub mod laws;
pub mod outcome;
pub mod results;
pub mod runner;
pub mod state;
pub mod text;
pub mod widgets;
