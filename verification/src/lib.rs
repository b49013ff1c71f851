pub mod api;
pub mod application;
pub mod controllers;
pub mod domain;
pub mod hal;
pub mod simulation;
