//! Polyphonic tone-generation engine: the discrete core of a drawbar organ.

pub mod editor;
pub mod effects;
pub mod graphics;
pub mod gui;
pub mod hammond;
pub mod organ;
pub mod pipe;
pub mod synth;
pub mod voice;
