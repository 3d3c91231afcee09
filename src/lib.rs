//! Builds the script text that hands a native result to a callback
//! registered on a webview's `window` object.
pub mod json;
pub mod rpc;
