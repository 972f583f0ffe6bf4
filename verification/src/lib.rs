pub mod scalar;
pub mod ieee;
pub mod vector;
pub mod matrix;
pub mod command;
pub mod raster;
pub mod screen;
pub mod state;
pub mod context;
pub mod frame;
pub mod fuel;
pub mod laws;
pub mod matrix_stack;
pub mod projection;
pub mod replay;
