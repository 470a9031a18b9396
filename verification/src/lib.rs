//! Size reduction of a single PDF, JPEG or PNG file: the rules that decide what
//! is written where, and with which encoder settings.

pub mod bootstrap;
pub mod codec;
pub mod dispatch;
pub mod error;
pub mod file_name;
pub mod path;
pub mod pdf;
pub mod quality;
pub mod resolve;
pub mod session;
pub mod strategy;
pub mod text;
