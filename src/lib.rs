//! Simulation core of a small arcade game: a ship that turns, thrusts and
//! fires, projectiles that fly straight, and asteroids that wrap around the
//! stage and split into smaller ones when hit.
//!
//! Positions and speeds are fixed-point integers: one pixel is `SUB` units.
//! Headings are whole degrees, and directions come from a fixed-point table.
pub mod trig;
pub mod kinematics;
pub mod character;
pub mod bullet;
pub mod random;
pub mod asteroid;
pub mod spaceship;
pub mod game;
pub mod control;
