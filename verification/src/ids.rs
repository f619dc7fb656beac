//! Identifiers that a command carries.

use vstd::prelude::*;

verus! {

/// Names one pipeline: one document being displayed.
#[derive(Clone, Copy, Debug, PartialEq, Eq, Structural)]
pub struct PipelineId {
    pub namespace_id: u32,
    pub index: u32,
}

/// Names one browsing context: a window, a tab or a frame.
#[derive(Clone, Copy, Debug, PartialEq, Eq, Structural)]
pub struct BrowsingContextId {
    pub namespace_id: u32,
    pub index: u32,
}

/// The ways in which a command names the frame to switch to.
#[derive(Debug, PartialEq)]
pub enum WebDriverFrameId {
    /// By position among the frames of the document.
    Short(u16),
    /// By the unique id of the frame's element.
    Element(String),
    /// The parent of the current frame.
    Parent,
}

} // verus!
