//! The candidate data model: what the engine offers to commit.
use vstd::prelude::*;

verus! {

/// Where a candidate comes from.
#[derive(Debug, Clone, Copy, PartialEq, Eq, Structural)]
pub enum CandidateKind {
    /// A word of the dictionary.
    Dictionary,
    /// A word the user added.
    User,
    /// A whole sentence assembled from several words.
    Sentence,
    /// An English word.
    English,
    /// An emoji.
    Emoji,
    /// The answer to a character question.
    Question,
    /// The value of an expression.
    Expression,
    /// A suggestion of the cloud service.
    Cloud,
}

/// A candidate that can be committed.
#[derive(Debug, Clone)]
pub struct Candidate {
    /// The text to commit.
    pub text: String,
    /// Where it comes from.
    pub kind: CandidateKind,
    /// The pinyin syllables that it matches, for the platform layer to highlight.
    pub syllables: Vec<String>,
    /// A gloss (the word an emoji stands for, the reading of a question's answer); `None` for
    /// Chinese candidates.
    pub reading: Option<String>,
}

} // verus!
