//! Verified core of a desktop audio visualizer overlay: colour packing,
//! the settings and their keyboard shortcuts, the drag-to-move and
//! drag-to-resize gestures of the overlay window, PCM sample decoding,
//! and the cutting of captured audio into the blocks that are displayed.
pub mod capture;
pub mod color;
pub mod overlay;
pub mod pcm;
pub mod settings;
