//! Decision logic of the cardamom plugin loader: the log levels and configuration
//! it reads, the export tables it forwards to the real `dinput8`/`dsound`
//! library, the selection of plugin files, and the start-up sequence that ties
//! them together. Everything that touches the operating system lives outside
//! this crate and hands plain values in and out.

pub mod log_level;
pub mod config;
pub mod exports;
pub mod plugins;
pub mod proxy;
pub mod startup;
