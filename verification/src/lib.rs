pub mod config;
pub mod demo;
pub mod picture;
pub mod power;
pub mod simulation;
