pub mod analyzer;
pub mod audio_setup;
pub mod buffer;
pub mod decimal;
pub mod plugin;
pub mod vst3;
