//! Client-side model of a JSON-framed gateway protocol: the frame codec, the
//! request builders and the decisions of the connection supervisor.

pub mod api;
pub mod codec;
pub mod duration;
pub mod funnel;
pub mod json;
pub mod json_text;
pub mod runs;
pub mod schema;
pub mod supervisor;
pub mod text;

pub use duration::Duration;
