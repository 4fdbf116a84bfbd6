//! Read-only access to the parameters of a JSON-RPC request.
//!
//! A request's `params` member is absent, a JSON array or a JSON object.
//! [`RawParams`] holds it in one of those three shapes, and [`Params`] is a
//! borrowed view over it that looks parameters up by name or by position,
//! decodes them, and walks them in order.

pub mod key;
pub mod laws;
pub mod map;
pub mod params;
mod value;

pub use key::ParamKey;
pub use map::ParamMap;
pub use params::{Iter, Params, RawParams};
