//! A first-person movement controller: look integration, ground and noclip movement,
//! friction, air control and damping, on fixed-point numbers.
pub mod fixed;
pub mod vector;
pub mod component;
pub mod movement;
pub mod system;
pub mod laws;
