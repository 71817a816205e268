//! The plugin host's data-crossing rules. Plugins run in a WebAssembly
//! engine driven by the application layer; this module holds what that
//! layer decides on plain values: how a guest's packed results and memory
//! ranges are read, which capability each host import needs, and what each
//! import answers.
pub mod host_functions;
pub mod runtime;
