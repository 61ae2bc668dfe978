//! A retained-mode 2-D vector drawing engine: canvases accumulate paths and
//! fills as plain data, and a renderer turns a canvas into an explicit list of
//! drawing commands for a stencil-buffer polygon fill.
//!
//! Coordinates and color channels are Q16.16 fixed-point numbers held in
//! `i64`: the integer `n` stands for the real number `n / 65536` (see
//! `fixed`). `geometry` is the affine transform algebra, `canvas` the scene
//! builder, `figure` a stand-alone figure builder, `renderer` the command
//! planner, and `image` the decoded-image resource.

pub mod canvas;
pub mod figure;
pub mod fixed;
pub mod geometry;
pub mod image;
pub mod point;
pub mod renderer;
