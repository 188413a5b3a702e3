pub mod scene;
pub mod batch;
pub mod text;
pub mod control;
pub mod render;
pub mod gui;
