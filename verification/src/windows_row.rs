//! One line of the Windows candidate window: the display form of a [`Candidate`], the same as
//! on macOS, with a cloud drawn before suggestions of the cloud service.
use vstd::prelude::*;

use crate::candidate::{Candidate, CandidateKind};
use crate::text::{decimal, decimal_string};

verus! {

/// How strongly an annotation piece is drawn.
#[derive(Debug, Clone, Copy, PartialEq, Eq, Structural)]
pub enum Tone {
    /// A gloss (the word an emoji stands for, the reading of a question's answer).
    Gloss,
}

/// One line of the candidate window.
#[derive(Debug, Clone)]
pub struct Row {
    /// The index as shown, such as `1`.
    pub index: String,
    /// The candidate.
    pub text: String,
    /// The annotation on the right, drawn in order; empty when there is no gloss.
    pub annotation: Vec<(String, Tone)>,
    /// From the cloud: a small cloud is drawn before the word.
    pub cloud: bool,
}

impl Row {
    /// The row shows `candidate` at `position` (from 0): the index counted from 1, the text,
    /// and the gloss as the only annotation piece when there is one.
    pub open spec fn shows(self, position: int, candidate: Candidate) -> bool {
        &&& self.index@ == decimal((position + 1) as nat)
        &&& self.text@ == candidate.text@
        &&& self.annotation@.len() == (if candidate.reading is Some { 1int } else { 0int })
        &&& candidate.reading matches Some(reading) ==> self.annotation@[0].0@ == reading@
            && self.annotation@[0].1 == Tone::Gloss
    }

    /// The row of `candidate` at `position` on the page (counted from 0).
    pub fn from_candidate(position: usize, candidate: &Candidate) -> (row: Row)
        requires
            position < usize::MAX,
        ensures
            row.shows(position as int, *candidate),
            row.index@ == decimal((position + 1) as nat),
            row.text@ == candidate.text@,
            candidate.reading is None ==> row.annotation@.len() == 0,
            candidate.reading matches Some(reading) ==> row.annotation@.len() == 1
                && row.annotation@[0].0@ == reading@ && row.annotation@[0].1 == Tone::Gloss,
            row.cloud == (candidate.kind == CandidateKind::Cloud),
    {
        let mut annotation: Vec<(String, Tone)> = Vec::new();
        match &candidate.reading {
            Some(reading) => annotation.push((reading.clone(), Tone::Gloss)),
            None => {},
        }
        let number = (position + 1) as u64;
        Row {
            index: decimal_string(number),
            text: candidate.text.clone(),
            annotation,
            cloud: candidate.kind == CandidateKind::Cloud,
        }
    }
}

/// The Windows window lists a candidate as the macOS one does: the same index, text and
/// annotation.
pub proof fn law_rows_match_macos(
    position: int,
    candidate: Candidate,
    row: Row,
    mac: crate::macos_row::Row,
)
    requires
        row.shows(position, candidate),
        mac.shows(position, candidate),
    ensures
        row.index@ == mac.index@,
        row.text@ == mac.text@,
        row.annotation@.len() == mac.annotation@.len(),
        forall|i: int|
            0 <= i < row.annotation@.len() ==> (#[trigger] row.annotation@[i]).0@
                == mac.annotation@[i].0@,
{
}

} // verus!
