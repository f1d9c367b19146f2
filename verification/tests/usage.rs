use qingjian::text::{decimal_string, group_digits};
use qingjian::usage::{
    cell_texts, columns, hanzi_text, hanzi_unit, scale_line, since_text, HanziUnit, Usage,
    UsageSummary,
};

#[test]
fn groups_digits_and_scales_in_chinese_units() {
    assert_eq!(group_digits(0), "0");
    assert_eq!(group_digits(999), "999");
    assert_eq!(group_digits(1000), "1,000");
    assert_eq!(group_digits(1_234_567), "1,234,567");
    assert_eq!(hanzi_unit(9_999), HanziUnit::Zi);
    assert_eq!(hanzi_text(9_999, ""), "9,999 字");
    assert_eq!(hanzi_unit(10_000), HanziUnit::Wan);
    assert_eq!(hanzi_text(10_000, "1"), "1 万字");
    assert_eq!(hanzi_unit(123_456), HanziUnit::Wan);
    assert_eq!(hanzi_text(123_456, "12.3"), "12.3 万字");
    assert_eq!(hanzi_unit(250_000_000), HanziUnit::Yi);
    assert_eq!(hanzi_text(250_000_000, "2.5"), "2.5 亿字");
}

#[test]
fn describes_the_total_against_a_book() {
    assert_eq!(scale_line(0, "", "", "", 0, ""), "累计输入 0 字。");
    assert_eq!(
        scale_line(2_500, "", "0.5", "道德经", 5_000, ""),
        "累计输入 2,500 字，约等于 0.5 本《道德经》（约 5,000 字）。"
    );
    assert_eq!(
        scale_line(204_000, "20.4", "1.7", "活着", 120_000, "12"),
        "累计输入 20.4 万字，约等于 1.7 本《活着》（约 12 万字）。"
    );
    assert_eq!(
        scale_line(12_000_000, "1200", "12", "平凡的世界", 1_000_000, "100"),
        "累计输入 1200 万字，约等于 12 本《平凡的世界》（约 100 万字）。"
    );
}

#[test]
fn decimal_string_writes_plain_numbers() {
    assert_eq!(decimal_string(0), "0");
    assert_eq!(decimal_string(7), "7");
    assert_eq!(decimal_string(10), "10");
    assert_eq!(decimal_string(1_234_567), "1234567");
    assert_eq!(decimal_string(u64::MAX), "18446744073709551615");
}

#[test]
fn group_digits_edges() {
    assert_eq!(group_digits(9), "9");
    assert_eq!(group_digits(10), "10");
    assert_eq!(group_digits(100), "100");
    assert_eq!(group_digits(100_000), "100,000");
    assert_eq!(group_digits(1_000_000), "1,000,000");
    assert_eq!(group_digits(u64::MAX), "18,446,744,073,709,551,615");
}

#[test]
fn removing_separators_gives_the_plain_number() {
    for value in [0u64, 5, 999, 1000, 65_536, 1_234_567, 98_765_432_101, u64::MAX] {
        assert_eq!(group_digits(value).replace(',', ""), value.to_string());
        assert_eq!(decimal_string(value), value.to_string());
    }
    for value in [0u64, 7, 42, 999] {
        assert_eq!(group_digits(value), decimal_string(value));
    }
}

#[test]
fn hanzi_units_switch_at_ten_thousand_and_a_hundred_million() {
    assert_eq!(hanzi_unit(0), HanziUnit::Zi);
    assert_eq!(hanzi_unit(99_999_999), HanziUnit::Wan);
    assert_eq!(hanzi_unit(100_000_000), HanziUnit::Yi);
    assert_eq!(hanzi_text(0, "ignored"), "0 字");
    assert_eq!(hanzi_text(99_999_999, "10000"), "10000 万字");
}

fn usage(hanzi: u64, words: u64, english_words: u64, commits: u64) -> Usage {
    Usage { hanzi, words, english_words, commits }
}

#[test]
fn columns_follow_the_header_order() {
    assert_eq!(columns(&usage(1, 2, 3, 4)), [1, 2, 3, 4]);
}

#[test]
fn cells_are_row_major_and_grouped() {
    let summary = UsageSummary {
        today: usage(1_234, 5, 6, 7),
        week: usage(12_345, 50, 60, 70),
        total: usage(1_234_567, 500, 600, 7_000),
        since: None,
        days: 0,
    };
    let cells = cell_texts(&summary);
    assert_eq!(cells.len(), 12);
    assert_eq!(cells[0], "1,234");
    assert_eq!(cells[3], "7");
    assert_eq!(cells[4], "12,345");
    assert_eq!(cells[8], "1,234,567");
    assert_eq!(cells[11], "7,000");
}

#[test]
fn since_line_with_and_without_records() {
    let mut summary = UsageSummary {
        today: usage(0, 0, 0, 0),
        week: usage(0, 0, 0, 0),
        total: usage(0, 0, 0, 0),
        since: None,
        days: 0,
    };
    assert_eq!(since_text(&summary), "还没有记录，打几个字再来看。");
    summary.since = Some("2024-03-01".to_string());
    summary.days = 123;
    assert_eq!(since_text(&summary), "自 2024-03-01 起，有输入的天数 123。");
}
