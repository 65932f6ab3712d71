//! The reviewed-recommendations model: what the external text-generation
//! collaborator produces when it is asked to comment on a score report, and
//! the lifecycle of that request.

use vstd::prelude::*;

verus! {

/// Priority level of one recommendation.
#[derive(Debug, Clone, Copy, PartialEq, Eq, Structural)]
pub enum AiPriority {
    High,
    Medium,
    Low,
}

/// What `AiPriority::label` returns.
pub open spec fn priority_label(p: AiPriority) -> Seq<char> {
    match p {
        AiPriority::High => "High priority"@,
        AiPriority::Medium => "Medium priority"@,
        AiPriority::Low => "Low priority"@,
    }
}

/// What `AiPriority::color` returns.
pub open spec fn priority_color(p: AiPriority) -> Seq<char> {
    match p {
        AiPriority::High => "#ff4e42"@,
        AiPriority::Medium => "#ffa400"@,
        AiPriority::Low => "#0cce6b"@,
    }
}

impl AiPriority {
    /// Human-readable name of the priority.
    pub fn label(&self) -> (r: &'static str)
        ensures
            r@ == priority_label(*self),
    {
        match self {
            AiPriority::High => "High priority",
            AiPriority::Medium => "Medium priority",
            AiPriority::Low => "Low priority",
        }
    }

    /// Display color of the priority.
    pub fn color(&self) -> (r: &'static str)
        ensures
            r@ == priority_color(*self),
    {
        match self {
            AiPriority::High => "#ff4e42",
            AiPriority::Medium => "#ffa400",
            AiPriority::Low => "#0cce6b",
        }
    }
}

/// One recommendation of the review.
#[derive(Debug)]
pub struct AiRecommendation {
    pub title: String,
    pub description: String,
    pub priority: AiPriority,
}

/// A full review: a summary and its recommendations.
#[derive(Debug)]
pub struct AiReview {
    pub summary: String,
    pub recommendations: Vec<AiRecommendation>,
}

/// Lifecycle of the review request.
#[derive(Debug)]
pub enum AiReviewState {
    /// Waiting for the user to ask for a review.
    Idle,
    /// The request is in flight.
    Loading,
    /// The review arrived and parsed.
    Done(AiReview),
    /// No token was provided, so the feature is unavailable.
    Unavailable,
    /// The request or its parsing failed.
    Error(String),
}

} // verus!
