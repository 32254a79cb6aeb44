//! What tools hand back, and where a tool call stands.
use crate::types::LanguageModelImage;
use vstd::prelude::*;
use vstd::string::StringExecFns;
use vstd::utf8::encode_utf8;

verus! {

/// Where a tool comes from.
#[derive(Clone, Debug, PartialEq, Eq, PartialOrd, Ord, Hash)]
pub enum ToolSource {
    /// A tool built into the application.
    Native,
    /// A tool provided by a context server.
    ContextServer { id: String },
}

/// The output of a tool run.
#[derive(Debug, PartialEq, Eq)]
pub enum ToolResultContent {
    Text(String),
    Image(LanguageModelImage),
}

impl ToolResultContent {
    /// The length in bytes of a text; images count as zero.
    pub fn len(&self) -> (r: usize)
        ensures
            r == match self {
                ToolResultContent::Text(s) => encode_utf8(s@).len(),
                ToolResultContent::Image(_) => 0,
            },
    {
        match self {
            ToolResultContent::Text(s) => s.as_str().as_bytes().len(),
            ToolResultContent::Image(image) => image.len(),
        }
    }

    /// A text is empty when it has no characters; an image never is.
    pub fn is_empty(&self) -> (r: bool)
        ensures
            r == match self {
                ToolResultContent::Text(s) => s@.len() == 0,
                ToolResultContent::Image(_) => false,
            },
    {
        match self {
            ToolResultContent::Text(s) => s.as_str().is_empty(),
            ToolResultContent::Image(image) => image.is_empty(),
        }
    }

    pub fn as_str(&self) -> (r: Option<&str>)
        ensures
            match self {
                ToolResultContent::Text(s) => r matches Some(t) && t@ == s@,
                ToolResultContent::Image(_) => r is None,
            },
    {
        match self {
            ToolResultContent::Text(s) => Some(s.as_str()),
            ToolResultContent::Image(_) => None,
        }
    }
}

/// Where a tool call stands.
#[derive(Clone, Debug)]
pub enum ToolUseStatus {
    InputStillStreaming,
    NeedsConfirmation,
    Pending,
    Running,
    Finished(String),
    Error(String),
}

impl ToolUseStatus {
    /// The output of a finished or failed call; empty otherwise.
    pub fn text(&self) -> (r: String)
        ensures
            r@ == match self {
                ToolUseStatus::Finished(out) => out@,
                ToolUseStatus::Error(out) => out@,
                _ => Seq::empty(),
            },
    {
        match self {
            ToolUseStatus::Finished(out) => out.clone(),
            ToolUseStatus::Error(out) => out.clone(),
            _ => String::new(),
        }
    }

    /// The message of a failed call.
    pub fn error(&self) -> (r: Option<String>)
        ensures
            match self {
                ToolUseStatus::Error(out) => r matches Some(e) && e@ == out@,
                _ => r is None,
            },
    {
        match self {
            ToolUseStatus::Error(out) => Some(out.clone()),
            _ => None,
        }
    }
}

} // verus!
