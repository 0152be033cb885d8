//! Game rules of a three-dimensional take on the classic alien-invasion
//! arcade game: scoring, lives, waves, formations, barriers, the mystery
//! ship, the march beat and the noise source of the sound effects.
//! Rendering, timing, input and audio output live in the application.

pub mod components;
pub mod game;
pub mod barrier;
pub mod enemy;
mod random;
pub mod mystery;
pub mod music;
pub mod sound;
pub mod collision;
pub mod player;
