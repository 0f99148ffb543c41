//! What a campaign and its qualifier say to each other.

use vstd::prelude::*;

verus! {

/// What the qualifier says of an actor.
#[derive(Clone, Copy, Debug, PartialEq, Eq, Structural)]
pub enum QualifiedContinueOption {
    /// The actor takes part with everything a participation pays.
    Eligible,
    /// The actor takes part and earns the rewards, but no boost.
    RejectedContinue,
    /// The actor does not take part.
    RejectedStop,
}

impl QualifiedContinueOption {
    /// Whether the actor takes part.
    pub fn can_participate(&self) -> (r: bool)
        ensures
            r == (*self != QualifiedContinueOption::RejectedStop),
    {
        match self {
            QualifiedContinueOption::Eligible => true,
            QualifiedContinueOption::RejectedContinue => true,
            QualifiedContinueOption::RejectedStop => false,
        }
    }

    /// Whether the answer aborts the participation.
    pub fn is_error(&self) -> (r: bool)
        ensures
            r == (*self == QualifiedContinueOption::RejectedStop),
    {
        match self {
            QualifiedContinueOption::Eligible => false,
            QualifiedContinueOption::RejectedContinue => false,
            QualifiedContinueOption::RejectedStop => true,
        }
    }

    /// Whether the actor earns the boost.
    pub fn can_boost(&self) -> (r: bool)
        ensures
            r == (*self == QualifiedContinueOption::Eligible),
    {
        match self {
            QualifiedContinueOption::Eligible => true,
            QualifiedContinueOption::RejectedContinue => false,
            QualifiedContinueOption::RejectedStop => false,
        }
    }
}

/// The question a campaign puts to its qualifier.
#[derive(Clone, Debug, PartialEq, Eq)]
pub struct QualificationMsg {
    pub campaign: String,
    pub sender: String,
    pub actor: String,
    pub referrer: Option<String>,
}

/// The qualifier's answer, with the reason where it turned the actor away.
#[derive(Clone, Debug, PartialEq, Eq)]
pub struct QualificationResult {
    pub continue_option: QualifiedContinueOption,
    pub reason: Option<String>,
}

} // verus!
