//! A small terminal drawing engine core and a diagram editor built on it:
//! integer grid geometry, line rasterization, a scene of rectangles, lines
//! and texts, and the state machine that edits the scene from pointer and
//! key events.

pub mod common;
pub mod rect;
pub mod line;
pub mod intersection;
pub mod event_group;
pub mod text_editor;
pub mod objects;
pub mod action;
pub mod scene;
pub mod app_model;
pub mod app;
pub mod gfx;
pub mod render;
pub mod engine;
pub mod jump;
