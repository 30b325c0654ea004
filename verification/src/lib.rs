//! Hierarchical, live-updating progress lines for a tree of instrumentation
//! spans. A bridge listens to span lifecycle notifications, computes a fixed,
//! depth-indented label per span when it is created, attaches an animated
//! terminal line while the span is entered, and retires that line when the
//! span is exited: a nested span's line vanishes without trace, a root span's
//! line stays behind with a completion message.

pub mod bridge;
pub mod label;
mod surface;

pub use bridge::default_style;
pub use bridge::PbSubscriber;
pub use label::make_label;
pub use label::resolve_description;
