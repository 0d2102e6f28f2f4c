//! The core of an interactive two-dimensional physics sandbox.
//!
//! A sandbox is a window onto a small world of boxes. The pointer puts boxes
//! into the world, takes them out again, and links two of them with a fixed
//! joint; the physics of `let_engine` moves them. This crate holds the rules
//! of the sandbox and proves them:
//!
//! - [`input`]: on which frame a press fires, and what the keys mean;
//! - [`interaction`]: what the pointer does in each mode;
//! - [`scene`]: which objects the scene holds, each under a name that is
//!   never given twice;
//! - [`joints`]: which objects are linked;
//! - [`camera`]: where a pan is anchored;
//! - [`ticker`]: how the physics loop is paced;
//! - [`text`]: how typing edits the text of the labels;
//! - [`game`]: all of these around one layer of the physics world.
//!
//! The physics world itself is the engine's. The crate calls it through the
//! functions of [`backend`], of which nothing is proved; the rules are
//! proved for whatever the engine answers.

pub mod backend;
pub mod camera;
pub mod game;
pub mod input;
pub mod interaction;
pub mod joints;
pub mod scene;
pub mod text;
pub mod ticker;
