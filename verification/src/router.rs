//! The "modifier + digit" shortcuts of the Windows server while composing: deleting a
//! candidate of the current page. The router decides; removing the word from the engine is
//! done by the caller, which then hands back what was forgotten.
use vstd::prelude::*;

use crate::candidate::Candidate;
use crate::shortcut::Modifiers;

verus! {

/// The part of the server configuration that the shortcuts read.
#[derive(Debug, Clone, Copy)]
pub struct RouterConfig {
    /// Candidates per page.
    pub page_size: usize,
    /// The modifiers that delete a candidate together with a digit.
    pub delete_keys: Modifiers,
}

/// What a key did to the composition.
#[derive(Debug, Clone, PartialEq, Eq)]
pub enum Effect {
    /// Only the highlight or the page moved; nothing to redraw beyond that.
    Navigated,
    /// The composition changed; carries the text to commit, if any.
    Changed(Option<String>),
}

/// What the engine removed when asked to forget a candidate.
#[derive(Debug, Clone, Copy, PartialEq, Eq, Structural)]
pub struct Forgotten {
    /// A user word was deleted.
    pub user_word: bool,
    /// Learning records of a dictionary word were cleared.
    pub learning: bool,
}

/// What a digit shortcut asks for.
#[derive(Debug, Clone, Copy, PartialEq, Eq, Structural)]
pub enum DigitShortcut {
    /// Forget the candidate at this index of the layout.
    Forget { index: usize },
    /// The digit points at an empty cell: nothing to delete.
    NothingToForget,
}

/// The composition state that the shortcuts work on.
#[derive(Debug)]
pub struct Router {
    pub config: RouterConfig,
    /// Index of the highlighted candidate in the layout.
    pub highlight: usize,
    /// A message for the user, shown with the next frame.
    pub notice: Option<String>,
    /// The candidates as laid out, page after page.
    pub layout: Vec<Candidate>,
}

/// The index on the page of `highlight` that digit `digit` (counted from 1) points at.
pub open spec fn page_index(highlight: int, page_size: int, digit: int) -> int {
    (highlight / page_size) * page_size + (digit - 1)
}

/// The message shown after forgetting the candidate `text`.
pub open spec fn spec_forget_notice(text: Seq<char>, forgotten: Forgotten) -> Seq<char> {
    if forgotten.user_word {
        "已删除用户词「"@ + text + "」"@
    } else if forgotten.learning {
        "已忘掉对「"@ + text + "」的学习记录"@
    } else {
        "「"@ + text + "」是词库里的词，也没有学习记录，没什么可删"@
    }
}

/// The message shown after forgetting the candidate `text`.
pub fn forget_notice(text: &str, forgotten: Forgotten) -> (message: String)
    ensures
        message@ == spec_forget_notice(text@, forgotten),
        forgotten.user_word ==> message@ == "已删除用户词「"@ + text@ + "」"@,
        !forgotten.user_word && forgotten.learning ==> message@ == "已忘掉对「"@ + text@
            + "」的学习记录"@,
        !forgotten.user_word && !forgotten.learning ==> message@ == "「"@ + text@
            + "」是词库里的词，也没有学习记录，没什么可删"@,
{
    let mut message = String::new();
    if forgotten.user_word {
        message.append("已删除用户词「");
        message.append(text);
        message.append("」");
    } else if forgotten.learning {
        message.append("已忘掉对「");
        message.append(text);
        message.append("」的学习记录");
    } else {
        message.append("「");
        message.append(text);
        message.append("」是词库里的词，也没有学习记录，没什么可删");
    }
    message
}

impl Router {
    /// The page arithmetic for `digit` stays within `usize`.
    pub open spec fn page_index_fits(&self, digit: usize) -> bool {
        &&& self.config.page_size > 0
        &&& digit >= 1 ==> page_index(
            self.highlight as int,
            self.config.page_size as int,
            digit as int,
        ) <= usize::MAX
    }

    /// The layout index of the candidate that `digit` points at on the current page.
    pub open spec fn spec_candidate_on_page(&self, digit: usize) -> Option<usize> {
        if digit == 0 {
            None
        } else {
            let index = page_index(
                self.highlight as int,
                self.config.page_size as int,
                digit as int,
            );
            if index < self.layout@.len() {
                Some(index as usize)
            } else {
                None
            }
        }
    }

    /// The layout index of the `digit`-th candidate (from 1) of the current page; `None` when
    /// the digit is 0 or the cell is empty.
    pub fn candidate_on_page(&self, digit: usize) -> (index: Option<usize>)
        requires
            self.page_index_fits(digit),
        ensures
            index == self.spec_candidate_on_page(digit),
            index matches Some(i) ==> i < self.layout@.len(),
            index matches Some(i) ==> digit >= 1 && i as int == (self.highlight as int
                / self.config.page_size as int) * self.config.page_size as int + digit - 1,
            digit >= 1 && (self.highlight as int / self.config.page_size as int)
                * self.config.page_size as int + digit - 1 < self.layout@.len() ==> index
                == Some(
                ((self.highlight as int / self.config.page_size as int)
                    * self.config.page_size as int + digit - 1) as usize,
            ),
            digit == 0 ==> index is None,
            digit <= self.config.page_size ==> (index matches Some(i) ==> i
                / self.config.page_size == self.highlight / self.config.page_size),
    {
        let page_size = self.config.page_size;
        let page = self.highlight / page_size;
        if digit == 0 {
            return None;
        }
        proof {
            assert(page * page_size <= self.highlight) by (nonlinear_arith)
                requires
                    page == self.highlight / page_size,
                    page_size > 0,
            ;
        }
        let index = page * page_size + (digit - 1);
        proof {
            if digit <= page_size {
                vstd::arithmetic::div_mod::lemma_fundamental_div_mod_converse(
                    index as int,
                    page_size as int,
                    page as int,
                    (digit - 1) as int,
                );
            }
        }
        if index < self.layout.len() {
            Some(index)
        } else {
            None
        }
    }

    /// A digit pressed with `chord`: `None` when the chord is not a shortcut (no modifiers,
    /// or not the delete combination) and the digit is an ordinary key; otherwise what the
    /// delete shortcut asks for.
    pub fn apply_digit_shortcut(&self, digit: usize, chord: Modifiers) -> (shortcut: Option<
        DigitShortcut,
    >)
        requires
            !chord.spec_is_empty() && chord == self.config.delete_keys ==> self.page_index_fits(
                digit,
            ),
        ensures
            chord.spec_is_empty() ==> shortcut is None,
            !chord.spec_is_empty() && chord != self.config.delete_keys ==> shortcut is None,
            !chord.spec_is_empty() && chord == self.config.delete_keys ==> shortcut == Some(
                match self.spec_candidate_on_page(digit) {
                    Some(index) => DigitShortcut::Forget { index },
                    None => DigitShortcut::NothingToForget,
                },
            ),
    {
        if chord == Modifiers::default() {
            return None;
        }
        if chord == self.config.delete_keys {
            match self.candidate_on_page(digit) {
                Some(index) => Some(DigitShortcut::Forget { index }),
                None => Some(DigitShortcut::NothingToForget),
            }
        } else {
            None
        }
    }

    /// After the engine forgot the candidate at `index`: the message goes out with the next
    /// frame, and the composition is redrawn.
    pub fn finish_forget(&mut self, index: usize, forgotten: Forgotten) -> (effect: Effect)
        requires
            index < old(self).layout@.len(),
        ensures
            final(self).notice matches Some(message) && message@ == spec_forget_notice(
                old(self).layout@[index as int].text@,
                forgotten,
            ),
            final(self).config == old(self).config,
            final(self).highlight == old(self).highlight,
            final(self).layout@ == old(self).layout@,
            effect == Effect::Changed(None),
    {
        let message = forget_notice(self.layout[index].text.as_str(), forgotten);
        self.notice = Some(message);
        Effect::Changed(None)
    }
}

/// The notice after forgetting names what went: when a user word was deleted the user is told
/// so, whatever else was cleared; the learning message only when no user word went; the
/// dictionary message only when nothing went.
pub proof fn law_forget_notice(text: Seq<char>, learning: bool)
    ensures
        spec_forget_notice(text, Forgotten { user_word: true, learning })
            == "已删除用户词「"@ + text + "」"@,
        spec_forget_notice(text, Forgotten { user_word: false, learning: true })
            == "已忘掉对「"@ + text + "」的学习记录"@,
        spec_forget_notice(text, Forgotten { user_word: false, learning: false })
            == "「"@ + text + "」是词库里的词，也没有学习记录，没什么可删"@,
{
}

/// The `digit`-th candidate (from 1) of the highlighted page is the one at
/// `(highlight / page_size) * page_size + digit - 1`: it is found whenever that cell of the
/// layout holds a candidate, and an empty cell or digit 0 gives nothing.
pub proof fn law_candidate_on_page(router: Router, digit: usize)
    requires
        router.config.page_size > 0,
    ensures
        digit == 0 ==> router.spec_candidate_on_page(digit) is None,
        digit >= 1 && (router.highlight as int / router.config.page_size as int)
            * router.config.page_size as int + digit - 1 < router.layout@.len()
            ==> router.spec_candidate_on_page(digit) == Some(
            ((router.highlight as int / router.config.page_size as int)
                * router.config.page_size as int + digit - 1) as usize,
        ),
        digit >= 1 && (router.highlight as int / router.config.page_size as int)
            * router.config.page_size as int + digit - 1 >= router.layout@.len()
            ==> router.spec_candidate_on_page(digit) is None,
{
}

} // verus!
