//! What a tool handler is called with and what it hands back.

use vstd::prelude::*;
use vstd::string::*;

verus! {

/// The kind of call that a tool handler serves.
#[derive(Clone, Copy, Debug, PartialEq, Eq, Structural)]
pub enum ToolKind {
    Function,
    UnifiedExec,
    Mcp,
}

/// What a tool call carries.
#[derive(Debug)]
pub enum ToolPayload {
    /// A function call with its arguments as JSON text.
    Function { arguments: String },
    /// Any other kind of call.
    Other,
}

/// What a function tool hands back to the model.
#[derive(Debug)]
pub struct ToolOutput {
    pub content: String,
    pub success: Option<bool>,
}

/// Abstract value of a [`ToolOutput`].
pub struct ToolOutputView {
    pub content: Seq<char>,
    pub success: Option<bool>,
}

impl View for ToolOutput {
    type V = ToolOutputView;

    open spec fn view(&self) -> ToolOutputView {
        ToolOutputView { content: self.content@, success: self.success }
    }
}

} // verus!
