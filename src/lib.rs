//! Voice capture to text: a capture engine that resamples to a fixed rate,
//! the PCM and WAV codecs, the transcription and refinement provider
//! selection, the realtime transcription protocol, and the pipeline state
//! machine that drives them in batch and in streaming mode.
pub mod audio;
pub mod config;
pub mod text;
pub mod asr;
pub mod llm;
pub mod pipeline;
pub mod realtime;
pub mod hotkey;
pub mod output;
pub mod permissions;
