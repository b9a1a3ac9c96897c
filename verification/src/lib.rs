pub mod dsp;
pub mod editor;
pub mod history;
pub mod midi;
pub mod model;
pub mod naming;
pub mod parse;
pub mod pointer;
pub mod text;
