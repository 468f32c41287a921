//! The core logic of a personal music library: the playback engine's state
//! machine, the batching of audio analysis, the documents of the search
//! index and the description of catalogued files.
//!
//! The library reads no file and holds no device. The program around it
//! owns the audio sink, the database and the index on disk; it hands plain
//! values in and carries out what the library decides.

pub mod analysis;
pub mod cancel;
pub mod describe;
pub mod library_manage;
pub mod paths;
pub mod playback;
pub mod search;
pub mod text;
