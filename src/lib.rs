//! Gameplay decisions of a set of small engine demos: a 2D platformer, a
//! third-person character, a blend-shape viewer, a free-flying camera and a
//! widget gallery. Each module keeps the state of one demo as plain values and
//! turns input events and UI messages into the actions that the engine should
//! perform.
pub mod handle;
pub mod input;
pub mod text;
pub mod platformer;
pub mod animation;
pub mod blendshape;
pub mod camera;
pub mod widget;
pub mod gallery;
