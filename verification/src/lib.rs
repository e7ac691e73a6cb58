pub mod pieces;
pub mod strategy;
pub mod engine;
pub mod driver;
