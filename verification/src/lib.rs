//! A drag-and-drop image viewer core: the hover/drop lifecycle over a staged
//! candidate image and the committed active image, and the compositor that
//! copies a committed image into the presentation buffer.

pub mod laws;
pub mod raster;
pub mod surface;
pub mod viewer;
