use qingjian::candidate::{Candidate, CandidateKind};
use qingjian::{macos_row, windows_row};

fn candidate(text: &str, kind: CandidateKind, reading: Option<&str>) -> Candidate {
    Candidate {
        text: text.to_string(),
        kind,
        syllables: vec!["ni".to_string(), "hao".to_string()],
        reading: reading.map(str::to_string),
    }
}

#[test]
fn macos_row_numbers_from_one_and_carries_the_gloss() {
    let row = macos_row::Row::from_candidate(0, &candidate("😀", CandidateKind::Emoji, Some("笑脸")));
    assert_eq!(row.index, "1");
    assert_eq!(row.text, "😀");
    assert_eq!(row.annotation, vec![("笑脸".to_string(), macos_row::Tone::Gloss)]);
    assert!(!row.cloud);
}

#[test]
fn macos_row_without_gloss_has_no_annotation() {
    let row = macos_row::Row::from_candidate(9, &candidate("你好", CandidateKind::Cloud, None));
    assert_eq!(row.index, "10");
    assert_eq!(row.text, "你好");
    assert!(row.annotation.is_empty());
    assert!(!row.cloud);
}

#[test]
fn windows_row_marks_cloud_candidates() {
    let cloud = windows_row::Row::from_candidate(2, &candidate("你好", CandidateKind::Cloud, None));
    assert_eq!(cloud.index, "3");
    assert!(cloud.cloud);
    assert!(cloud.annotation.is_empty());
    let local = windows_row::Row::from_candidate(
        122,
        &candidate("好", CandidateKind::Question, Some("hǎo")),
    );
    assert_eq!(local.index, "123");
    assert!(!local.cloud);
    assert_eq!(local.annotation, vec![("hǎo".to_string(), windows_row::Tone::Gloss)]);
}

#[test]
fn both_windows_show_the_same_line() {
    for (position, c) in [
        (0usize, candidate("😀", CandidateKind::Emoji, Some("笑脸"))),
        (41, candidate("云", CandidateKind::Cloud, None)),
    ] {
        let mac = macos_row::Row::from_candidate(position, &c);
        let win = windows_row::Row::from_candidate(position, &c);
        assert_eq!(mac.index, win.index);
        assert_eq!(mac.text, win.text);
        assert_eq!(mac.annotation.len(), win.annotation.len());
        for (a, b) in mac.annotation.iter().zip(win.annotation.iter()) {
            assert_eq!(a.0, b.0);
        }
    }
}
