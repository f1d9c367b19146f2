//! The "statistics" page: how much was typed today, in the last seven days and in total
//! (Chinese characters, Chinese words, English words, commits), and the total set against
//! the length of a well-known book.
//!
//! Scaled amounts such as `12.3` (ten-thousands) and ratios such as `1.7` are written from
//! floating-point values by the caller; this module decides which unit applies and puts the
//! pieces together.
use vstd::prelude::*;

use crate::text::{decimal, decimal_string, group_digits, grouped};

verus! {

/// How much was typed in one period.
#[derive(Debug, Clone, Copy, PartialEq, Eq, Structural)]
pub struct Usage {
    /// Chinese characters.
    pub hanzi: u64,
    /// Chinese words.
    pub words: u64,
    /// English words.
    pub english_words: u64,
    /// Commits.
    pub commits: u64,
}

/// The summary the page shows.
#[derive(Debug, Clone)]
pub struct UsageSummary {
    pub today: Usage,
    pub week: Usage,
    pub total: Usage,
    /// The first day with a record, as written for the user.
    pub since: Option<String>,
    /// The number of days with input.
    pub days: u64,
}

/// The value in column `c` of a row: characters, words, English words, commits.
pub open spec fn column_value(usage: Usage, c: int) -> u64 {
    if c == 0 {
        usage.hanzi
    } else if c == 1 {
        usage.words
    } else if c == 2 {
        usage.english_words
    } else {
        usage.commits
    }
}

/// Row `r` of the table: today, the last seven days, in total.
pub open spec fn summary_row(summary: UsageSummary, r: int) -> Usage {
    if r == 0 {
        summary.today
    } else if r == 1 {
        summary.week
    } else {
        summary.total
    }
}

/// The four values of a row, in column order.
pub fn columns(usage: &Usage) -> (values: [u64; 4])
    ensures
        forall|c: int| 0 <= c < 4 ==> values@[c] == column_value(*usage, c),
        values@[0] == usage.hanzi,
        values@[1] == usage.words,
        values@[2] == usage.english_words,
        values@[3] == usage.commits,
{
    [usage.hanzi, usage.words, usage.english_words, usage.commits]
}

/// The texts of the twelve cells, row by row: `texts[row * 4 + column]`.
pub fn cell_texts(summary: &UsageSummary) -> (texts: Vec<String>)
    ensures
        texts@.len() == 12,
        forall|r: int, c: int|
            0 <= r < 3 && 0 <= c < 4 ==> #[trigger] texts@[r * 4 + c]@ == grouped(
                decimal(column_value(summary_row(*summary, r), c) as nat),
            ),
        texts@[0]@ == grouped(decimal(summary.today.hanzi as nat)),
        texts@[1]@ == grouped(decimal(summary.today.words as nat)),
        texts@[2]@ == grouped(decimal(summary.today.english_words as nat)),
        texts@[3]@ == grouped(decimal(summary.today.commits as nat)),
        texts@[4]@ == grouped(decimal(summary.week.hanzi as nat)),
        texts@[5]@ == grouped(decimal(summary.week.words as nat)),
        texts@[6]@ == grouped(decimal(summary.week.english_words as nat)),
        texts@[7]@ == grouped(decimal(summary.week.commits as nat)),
        texts@[8]@ == grouped(decimal(summary.total.hanzi as nat)),
        texts@[9]@ == grouped(decimal(summary.total.words as nat)),
        texts@[10]@ == grouped(decimal(summary.total.english_words as nat)),
        texts@[11]@ == grouped(decimal(summary.total.commits as nat)),
{
    proof {
        law_table_layout(*summary);
    }
    let rows = [summary.today, summary.week, summary.total];
    let mut texts: Vec<String> = Vec::new();
    let mut row: usize = 0;
    while row < 3
        invariant
            row <= 3,
            texts@.len() == row * 4,
            forall|k: int| 0 <= k < 3 ==> rows@[k] == summary_row(*summary, k),
            forall|r: int, c: int|
                0 <= r < row && 0 <= c < 4 ==> #[trigger] texts@[r * 4 + c]@ == grouped(
                    decimal(column_value(summary_row(*summary, r), c) as nat),
                ),
        decreases 3 - row,
    {
        let values = columns(&rows[row]);
        let mut column: usize = 0;
        while column < 4
            invariant
                row < 3,
                column <= 4,
                texts@.len() == row * 4 + column,
                forall|k: int| 0 <= k < 3 ==> rows@[k] == summary_row(*summary, k),
                forall|c: int| 0 <= c < 4 ==> values@[c] == column_value(rows@[row as int], c),
                forall|r: int, c: int|
                    0 <= r < row && 0 <= c < 4 ==> #[trigger] texts@[r * 4 + c]@ == grouped(
                        decimal(column_value(summary_row(*summary, r), c) as nat),
                    ),
                forall|c: int|
                    0 <= c < column ==> #[trigger] texts@[row * 4 + c]@ == grouped(
                        decimal(column_value(summary_row(*summary, row as int), c) as nat),
                    ),
            decreases 4 - column,
        {
            texts.push(group_digits(values[column]));
            column = column + 1;
        }
        row = row + 1;
    }
    assert(texts@[0int * 4 + 0]@ == grouped(decimal(column_value(summary_row(*summary, 0), 0) as nat)));
    assert(texts@[0int * 4 + 1]@ == grouped(decimal(column_value(summary_row(*summary, 0), 1) as nat)));
    assert(texts@[0int * 4 + 2]@ == grouped(decimal(column_value(summary_row(*summary, 0), 2) as nat)));
    assert(texts@[0int * 4 + 3]@ == grouped(decimal(column_value(summary_row(*summary, 0), 3) as nat)));
    assert(texts@[1int * 4 + 0]@ == grouped(decimal(column_value(summary_row(*summary, 1), 0) as nat)));
    assert(texts@[1int * 4 + 1]@ == grouped(decimal(column_value(summary_row(*summary, 1), 1) as nat)));
    assert(texts@[1int * 4 + 2]@ == grouped(decimal(column_value(summary_row(*summary, 1), 2) as nat)));
    assert(texts@[1int * 4 + 3]@ == grouped(decimal(column_value(summary_row(*summary, 1), 3) as nat)));
    assert(texts@[2int * 4 + 0]@ == grouped(decimal(column_value(summary_row(*summary, 2), 0) as nat)));
    assert(texts@[2int * 4 + 1]@ == grouped(decimal(column_value(summary_row(*summary, 2), 1) as nat)));
    assert(texts@[2int * 4 + 2]@ == grouped(decimal(column_value(summary_row(*summary, 2), 2) as nat)));
    assert(texts@[2int * 4 + 3]@ == grouped(decimal(column_value(summary_row(*summary, 2), 3) as nat)));
    texts
}

/// The table is laid out as its headers say: rows today, last seven days, in total; columns
/// characters, Chinese words, English words, commits.
pub proof fn law_table_layout(summary: UsageSummary)
    ensures
        summary_row(summary, 0) == summary.today,
        summary_row(summary, 1) == summary.week,
        summary_row(summary, 2) == summary.total,
        forall|u: Usage|
            #![trigger column_value(u, 0)]
            column_value(u, 0) == u.hanzi && column_value(u, 1) == u.words && column_value(u, 2)
                == u.english_words && column_value(u, 3) == u.commits,
{
}

/// The line under the table: since when records are kept and on how many days there was input.
pub fn since_text(summary: &UsageSummary) -> (line: String)
    ensures
        line@ == (match summary.since {
            Some(date) => "自 "@ + date@ + " 起，有输入的天数 "@ + decimal(summary.days as nat) + "。"@,
            None => "还没有记录，打几个字再来看。"@,
        }),
{
    let mut line = String::new();
    match &summary.since {
        Some(date) => {
            line.append("自 ");
            line.append(date.as_str());
            line.append(" 起，有输入的天数 ");
            let days = decimal_string(summary.days);
            line.append(days.as_str());
            line.append("。");
        },
        None => {
            line.append("还没有记录，打几个字再来看。");
        },
    }
    line
}

/// The unit in which an amount of characters is written.
#[derive(Debug, Clone, Copy, PartialEq, Eq, Structural)]
pub enum HanziUnit {
    /// Below ten thousand: the plain number with separators, then 字.
    Zi,
    /// From ten thousand: ten-thousands with one decimal, then 万字.
    Wan,
    /// From a hundred million: hundred-millions with one decimal, then 亿字.
    Yi,
}

/// The unit for `value` characters.
pub open spec fn spec_hanzi_unit(value: u64) -> HanziUnit {
    if value >= 100_000_000 {
        HanziUnit::Yi
    } else if value >= 10_000 {
        HanziUnit::Wan
    } else {
        HanziUnit::Zi
    }
}

/// The unit in which `value` characters are written.
pub fn hanzi_unit(value: u64) -> (unit: HanziUnit)
    ensures
        unit == spec_hanzi_unit(value),
        unit == HanziUnit::Zi <==> value < 10_000,
        unit == HanziUnit::Wan <==> 10_000 <= value < 100_000_000,
        unit == HanziUnit::Yi <==> value >= 100_000_000,
{
    if value >= 100_000_000 {
        HanziUnit::Yi
    } else if value >= 10_000 {
        HanziUnit::Wan
    } else {
        HanziUnit::Zi
    }
}

/// The amount `value` of characters as a reader says it.
pub open spec fn spec_hanzi_text(value: u64, scaled: Seq<char>) -> Seq<char> {
    match spec_hanzi_unit(value) {
        HanziUnit::Yi => scaled + " 亿字"@,
        HanziUnit::Wan => scaled + " 万字"@,
        HanziUnit::Zi => grouped(decimal(value as nat)) + " 字"@,
    }
}

/// `value` characters in the way Chinese writes amounts: below ten thousand the number
/// with separators (`2,500 字`), from ten thousand in ten-thousands (`12.3 万字`), from a
/// hundred million in hundred-millions (`2.5 亿字`). `scaled` is `value` divided by the unit
/// of [`hanzi_unit`], written with one decimal and without a trailing `.0`; it is not used
/// below ten thousand.
pub fn hanzi_text(value: u64, scaled: &str) -> (text: String)
    ensures
        text@ == spec_hanzi_text(value, scaled@),
        value < 10_000 ==> text@ == grouped(decimal(value as nat)) + " 字"@,
        10_000 <= value < 100_000_000 ==> text@ == scaled@ + " 万字"@,
        value >= 100_000_000 ==> text@ == scaled@ + " 亿字"@,
{
    let mut text = String::new();
    match hanzi_unit(value) {
        HanziUnit::Yi => {
            text.append(scaled);
            text.append(" 亿字");
        },
        HanziUnit::Wan => {
            text.append(scaled);
            text.append(" 万字");
        },
        HanziUnit::Zi => {
            let digits = group_digits(value);
            text.append(digits.as_str());
            text.append(" 字");
        },
    }
    text
}

/// The comparison line: the total against a book. With nothing typed yet there is nothing to
/// compare. `total_scaled` and `book_scaled` are the scaled amounts of `hanzi` and
/// `book_hanzi` (see [`hanzi_text`]), `ratio` the number of books, written by the caller.
pub fn scale_line(
    hanzi: u64,
    total_scaled: &str,
    ratio: &str,
    book_title: &str,
    book_hanzi: u64,
    book_scaled: &str,
) -> (line: String)
    ensures
        line@ == (if hanzi == 0 {
            "累计输入 0 字。"@
        } else {
            "累计输入 "@ + spec_hanzi_text(hanzi, total_scaled@) + "，约等于 "@ + ratio@ + " 本《"@
                + book_title@ + "》（约 "@ + spec_hanzi_text(book_hanzi, book_scaled@) + "）。"@
        }),
{
    let mut line = String::new();
    if hanzi == 0 {
        line.append("累计输入 0 字。");
        return line;
    }
    line.append("累计输入 ");
    let total = hanzi_text(hanzi, total_scaled);
    line.append(total.as_str());
    line.append("，约等于 ");
    line.append(ratio);
    line.append(" 本《");
    line.append(book_title);
    line.append("》（约 ");
    let book = hanzi_text(book_hanzi, book_scaled);
    line.append(book.as_str());
    line.append("）。");
    line
}

/// Amounts are written in plain characters below ten thousand, in ten-thousands from ten
/// thousand up to a hundred million, and in hundred-millions from there on.
pub proof fn law_hanzi_unit_thresholds(value: u64)
    ensures
        spec_hanzi_unit(value) == HanziUnit::Zi <==> value < 10_000,
        spec_hanzi_unit(value) == HanziUnit::Wan <==> 10_000 <= value < 100_000_000,
        spec_hanzi_unit(value) == HanziUnit::Yi <==> value >= 100_000_000,
        value < 10_000 ==> spec_hanzi_text(value, seq![]) == grouped(decimal(value as nat))
            + " 字"@,
{
}

/// The amount text never depends on the scaled text below ten thousand, and from there on it
/// is the scaled text followed by the unit.
pub proof fn law_hanzi_text_parts(value: u64, scaled: Seq<char>, other: Seq<char>)
    ensures
        value < 10_000 ==> spec_hanzi_text(value, scaled) == spec_hanzi_text(value, other),
        10_000 <= value < 100_000_000 ==> spec_hanzi_text(value, scaled) == scaled + " 万字"@,
        value >= 100_000_000 ==> spec_hanzi_text(value, scaled) == scaled + " 亿字"@,
{
}

} // verus!
