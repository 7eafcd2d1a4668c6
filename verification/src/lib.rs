//! Status-line data aggregator: samplers turn raw host readings (network
//! byte counters, CPU tick counters, Wi-Fi signal, battery charge,
//! temperature, audio volume, an air-quality index and the local time) into
//! display blocks, and an emission coordinator assembles them, in a fixed
//! source order, into one JSON snapshot per trigger for a line-oriented
//! status-bar consumer.
//!
//! All reading of files, subprocesses and the network happens outside this
//! library; the samplers here take the raw values or file contents as
//! arguments and are verified. The one outside call made from the library is
//! the local-time query.
pub mod aqi;
pub mod battery;
pub mod block;
pub mod clock;
pub mod cpu;
pub mod emit;
pub mod error;
pub mod json;
pub mod parse;
pub mod rate;
pub mod sound;
pub mod temp;
pub mod text;
pub mod wifi;
