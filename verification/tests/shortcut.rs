use qingjian::candidate::{Candidate, CandidateKind};
use qingjian::router::{DigitShortcut, Effect, Forgotten, Router, RouterConfig, forget_notice};
use qingjian::shortcut::{ModeKeys, Modifiers, ShortcutConfig};

#[test]
fn delete_keys_default_when_none_configured() {
    let parsed = ShortcutConfig::default();
    assert_eq!(parsed.delete_keys(), Modifiers::shift());
    let empty = ShortcutConfig { mode: ModeKeys::default(), delete_candidate: Modifiers::default() };
    assert_eq!(empty.delete_keys(), Modifiers::shift());
    let custom = ShortcutConfig {
        mode: ModeKeys { expression: 'i', question: 'u' },
        delete_candidate: Modifiers { control: true, shift: true, alt: false, command: false },
    };
    assert!(custom.delete_keys().control);
    assert!(custom.delete_keys().shift);
}

#[test]
fn default_shortcut_section() {
    let config = ShortcutConfig::default();
    assert_eq!(config.mode, ModeKeys { expression: 'v', question: 'u' });
    assert!(!config.delete_candidate.is_empty());
    assert!(Modifiers::default().is_empty());
}

fn candidate(text: &str) -> Candidate {
    Candidate { text: text.to_string(), kind: CandidateKind::Dictionary, syllables: Vec::new(), reading: None }
}

fn router(highlight: usize, count: usize) -> Router {
    let words = ["一", "二", "三", "四", "五", "六", "七", "八", "九", "十", "十一", "十二"];
    Router {
        config: RouterConfig { page_size: 5, delete_keys: Modifiers::shift() },
        highlight,
        notice: None,
        layout: words[..count].iter().map(|w| candidate(w)).collect(),
    }
}

#[test]
fn digits_point_into_the_highlighted_page() {
    let r = router(7, 12);
    assert_eq!(r.candidate_on_page(0), None);
    assert_eq!(r.candidate_on_page(1), Some(5));
    assert_eq!(r.candidate_on_page(5), Some(9));
    let short = router(7, 8);
    assert_eq!(short.candidate_on_page(4), None);
    assert_eq!(short.candidate_on_page(3), Some(7));
}

#[test]
fn plain_digits_and_other_chords_are_not_shortcuts() {
    let r = router(0, 12);
    assert_eq!(r.apply_digit_shortcut(1, Modifiers::default()), None);
    let control = Modifiers { control: true, shift: false, alt: false, command: false };
    assert_eq!(r.apply_digit_shortcut(1, control), None);
}

#[test]
fn delete_chord_forgets_or_reports_an_empty_cell() {
    let r = router(0, 3);
    assert_eq!(r.apply_digit_shortcut(2, Modifiers::shift()), Some(DigitShortcut::Forget { index: 1 }));
    assert_eq!(r.apply_digit_shortcut(4, Modifiers::shift()), Some(DigitShortcut::NothingToForget));
    assert_eq!(r.apply_digit_shortcut(0, Modifiers::shift()), Some(DigitShortcut::NothingToForget));
}

#[test]
fn forgetting_sets_the_notice() {
    let mut r = router(0, 3);
    let effect = r.finish_forget(1, Forgotten { user_word: true, learning: false });
    assert_eq!(effect, Effect::Changed(None));
    assert_eq!(r.notice.as_deref(), Some("已删除用户词「二」"));
    r.finish_forget(2, Forgotten { user_word: false, learning: true });
    assert_eq!(r.notice.as_deref(), Some("已忘掉对「三」的学习记录"));
    assert_eq!(
        forget_notice("一", Forgotten { user_word: false, learning: false }),
        "「一」是词库里的词，也没有学习记录，没什么可删"
    );
}
