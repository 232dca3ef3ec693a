//! Stub backend for platforms without a display backend.
//!
//! Every operation answers with [`DisplayError::UnsupportedFeature`], so that
//! callers receive a clear error at runtime instead of a missing API.
use vstd::prelude::*;
use vstd::string::StringExecFns;

use crate::error::{DisplayError, DisplayResult};
use crate::traits::OutputEdit;
use crate::types::{is_default_output, DisplayId, OutputState};

verus! {

/// Stub topology for unsupported platforms.
pub struct StubTopology;

/// Stub output editor for unsupported platforms.
pub struct StubOutputEditor;

/// The error every stub operation answers with.
pub open spec fn platform_refusal(e: DisplayError) -> bool {
    e matches DisplayError::UnsupportedFeature(s) && s@ == "platform not supported"@
}

fn refusal() -> (res: DisplayError)
    ensures
        platform_refusal(res),
{
    DisplayError::UnsupportedFeature(String::from_str("platform not supported"))
}

impl StubOutputEditor {
    /// Every edit is refused.
    pub fn apply_edit(&mut self, edit: &OutputEdit) -> (res: DisplayResult<()>)
        ensures
            res matches Err(e) && platform_refusal(e),
    {
        Err(refusal())
    }

    /// The default output state.
    pub fn get_state(&self) -> (res: OutputState)
        ensures
            is_default_output(res@),
    {
        OutputState::default()
    }
}

impl StubTopology {
    /// Acquisition is refused.
    pub fn acquire() -> (res: DisplayResult<Self>)
        ensures
            res matches Err(e) && platform_refusal(e),
    {
        Err(refusal())
    }

    /// There are no outputs.
    pub fn get_outputs(&self) -> (res: Vec<OutputState>)
        ensures
            res@.len() == 0,
    {
        Vec::new()
    }

    /// Editing is refused.
    pub fn edit_output(&mut self, id: &DisplayId) -> (res: DisplayResult<StubOutputEditor>)
        ensures
            res matches Err(e) && platform_refusal(e),
            *final(self) == *old(self),
    {
        Err(refusal())
    }

    /// Persistence has nothing to act on.
    pub fn set_persistence(&mut self, enabled: bool)
        ensures
            *final(self) == *old(self),
    {
    }

    /// Validation is refused.
    pub fn validate(&self) -> (res: DisplayResult<()>)
        ensures
            res matches Err(e) && platform_refusal(e),
    {
        Err(refusal())
    }

    /// Committing is refused.
    pub fn commit(&mut self) -> (res: DisplayResult<()>)
        ensures
            res matches Err(e) && platform_refusal(e),
            *final(self) == *old(self),
    {
        Err(refusal())
    }
}

} // verus!
