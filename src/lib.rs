//! Verified core of a driver for a small SPI color panel: addressing-window
//! geometry, the controller's command protocol, the drawing surface that turns
//! rectangles and bitmaps into bus writes, and the debounced button that
//! cycles through a table of images.

pub mod bus;
pub mod cycle;
pub mod debounce;
pub mod drive;
pub mod geometry;
pub mod image;
pub mod panel;
pub mod surface;
