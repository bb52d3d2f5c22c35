//! Code generator for protocol-buffer messages targeting a JavaScript-family
//! runtime: for each message type it synthesizes the logic needed to encode and
//! decode the message to and from the compact binary wire format and to and
//! from the canonical proto3 JSON representation, together with the cross-unit
//! type-resolution registry that lets independently generated compilation
//! units reference each other's types through relative imports.

pub mod ast;
pub mod builders;
pub mod classify;
pub mod context;
pub mod descriptor;
pub mod grpc_web;
pub mod json;
pub mod laws;
pub mod options;
pub mod registry;
pub mod serialize;
pub mod strutil;
pub mod wire;
