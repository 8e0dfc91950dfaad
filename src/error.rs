//! The errors of prompt resolution.

use vstd::prelude::*;

verus! {

/// Why a prompt could not be resolved.
#[derive(Debug, Clone, Copy, PartialEq, Eq, Structural)]
pub enum PromptError {
    /// The prompt still holds placeholders that no value was bound to.
    UnresolvedVars,
    /// A variable name is not a well-formed placeholder name.
    InvalidVariable,
}

impl PromptError {
    /// A sentence that describes the error.
    pub fn message(&self) -> (r: &'static str)
        ensures
            r@ == error_message(*self),
    {
        match self {
            PromptError::UnresolvedVars => "Prompt contains unresolved variables.",
            PromptError::InvalidVariable => "Variable name is not a valid placeholder name.",
        }
    }
}

/// The sentence that describes `e`.
pub open spec fn error_message(e: PromptError) -> Seq<char> {
    match e {
        PromptError::UnresolvedVars => "Prompt contains unresolved variables."@,
        PromptError::InvalidVariable => "Variable name is not a valid placeholder name."@,
    }
}

} // verus!
