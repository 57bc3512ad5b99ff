//! The text of a report, in the layout that compilers use: the summary, an
//! arrow to the place, and the offending line with carets under the span.
//!
//! ```text
//! error: handlers must be async functions
//!  --> main.rs:7:1
//!   |
//! 7 | fn handler() -> &'static str {
//!   | ^
//! ```

use vstd::prelude::*;
use vstd::string::*;
use crate::emitter::LocalizedError;
use crate::span::SourceSpan;

verus! {

/// The character of the decimal digit `d`.
pub open spec fn digit(d: nat) -> char {
    if d == 0 {
        '0'
    } else if d == 1 {
        '1'
    } else if d == 2 {
        '2'
    } else if d == 3 {
        '3'
    } else if d == 4 {
        '4'
    } else if d == 5 {
        '5'
    } else if d == 6 {
        '6'
    } else if d == 7 {
        '7'
    } else if d == 8 {
        '8'
    } else {
        '9'
    }
}

/// The decimal numeral of `n`, without leading zeros.
pub open spec fn decimal(n: nat) -> Seq<char>
    decreases n,
{
    if n < 10 {
        seq![digit(n)]
    } else {
        decimal(n / 10).push(digit(n % 10))
    }
}

/// The character `c`, `n` times.
pub open spec fn repeated(c: char, n: nat) -> Seq<char> {
    Seq::new(n, |i: int| c)
}

/// How many carets stand under `span`: its width where it lies on one line
/// and is not empty, and one otherwise.
pub open spec fn underline_width(span: SourceSpan) -> nat {
    if span.start.line == span.end.line && span.start.column < span.end.column {
        (span.end.column - span.start.column) as nat
    } else {
        1
    }
}

/// The text of the report of `summary` at `span`, where `source` is the text
/// of the line on which the span starts, in the file `file`. Lines are
/// counted as the span counts them; columns are counted from zero in the
/// span and from one in the report.
pub open spec fn report(
    summary: Seq<char>,
    span: SourceSpan,
    file: Seq<char>,
    source: Seq<char>,
) -> Seq<char> {
    let number = decimal(span.start.line as nat);
    let margin = repeated(' ', number.len());
    let headline = "error: "@ + summary + seq!['\n'];
    let arrow = margin + "--> "@ + file + seq![':'] + number + seq![':'] + decimal(
        (span.start.column + 1) as nat,
    ) + seq!['\n'];
    let gap = margin + " |"@ + seq!['\n'];
    let excerpt = number + " | "@ + source + seq!['\n'];
    let underline = margin + " | "@ + repeated(' ', span.start.column as nat) + repeated(
        '^',
        underline_width(span),
    ) + seq!['\n'];
    headline + arrow + gap + excerpt + underline
}

/// The text of the decimal digit `d`.
fn digit_text(d: u8) -> (text: &'static str)
    requires
        d < 10,
    ensures
        text@ == seq![digit(d as nat)],
{
    proof {
        reveal_strlit("0");
        reveal_strlit("1");
        reveal_strlit("2");
        reveal_strlit("3");
        reveal_strlit("4");
        reveal_strlit("5");
        reveal_strlit("6");
        reveal_strlit("7");
        reveal_strlit("8");
        reveal_strlit("9");
    }
    let text = match d {
        0 => "0",
        1 => "1",
        2 => "2",
        3 => "3",
        4 => "4",
        5 => "5",
        6 => "6",
        7 => "7",
        8 => "8",
        _ => "9",
    };
    assert(text@ =~= seq![digit(d as nat)]);
    text
}

/// The decimal numeral of `n`.
pub fn decimal_text(n: u128) -> (text: String)
    ensures
        text@ == decimal(n as nat),
    decreases n,
{
    if n < 10 {
        String::from_str(digit_text(n as u8))
    } else {
        let mut text = decimal_text(n / 10);
        text.append(digit_text((n % 10) as u8));
        assert(text@ =~= decimal(n as nat));
        text
    }
}

/// Appends the one character of `unit` to `text`, `n` times.
pub fn append_repeated(text: &mut String, unit: &str, n: usize)
    requires
        unit@.len() == 1,
    ensures
        final(text)@ == old(text)@ + repeated(unit@[0], n as nat),
{
    let mut i: usize = 0;
    assert(text@ =~= old(text)@ + repeated(unit@[0], 0));
    while i < n
        invariant
            i <= n,
            unit@.len() == 1,
            text@ == old(text)@ + repeated(unit@[0], i as nat),
        decreases n - i,
    {
        text.append(unit);
        i += 1;
        assert(text@ =~= old(text)@ + repeated(unit@[0], i as nat));
    }
}

/// How many carets stand under `span`.
pub fn caret_count(span: &SourceSpan) -> (count: usize)
    ensures
        count == underline_width(*span),
{
    if span.start.line == span.end.line && span.start.column < span.end.column {
        span.end.column - span.start.column
    } else {
        1
    }
}

/// Renders the report of `error`, where `source` is the text of the line on
/// which the error's span starts, in the file `file`.
pub fn render_report(error: &LocalizedError, file: &str, source: &str) -> (text: String)
    ensures
        text@ == report(error.summary@, error.span, file@, source@),
{
    proof {
        reveal_strlit(" ");
        reveal_strlit("^");
        reveal_strlit(":");
        reveal_strlit("\n");
    }
    let span = error.span;
    let number = decimal_text(span.start.line as u128);
    let width = number.as_str().unicode_len();
    let column = decimal_text(span.start.column as u128 + 1);
    let ghost margin = repeated(' ', width as nat);

    let mut text = String::from_str("error: ");
    text.append(error.summary.as_str());
    text.append("\n");
    let ghost headline = text@;

    append_repeated(&mut text, " ", width);
    text.append("--> ");
    text.append(file);
    text.append(":");
    text.append(number.as_str());
    text.append(":");
    text.append(column.as_str());
    text.append("\n");
    let ghost through_arrow = text@;

    append_repeated(&mut text, " ", width);
    text.append(" |");
    text.append("\n");
    let ghost through_gap = text@;

    text.append(number.as_str());
    text.append(" | ");
    text.append(source);
    text.append("\n");
    let ghost through_excerpt = text@;

    append_repeated(&mut text, " ", width);
    text.append(" | ");
    append_repeated(&mut text, " ", span.start.column);
    append_repeated(&mut text, "^", caret_count(&span));
    text.append("\n");

    proof {
        let arrow = margin + "--> "@ + file@ + seq![':'] + number@ + seq![':'] + column@ + seq![
            '\n',
        ];
        let gap = margin + " |"@ + seq!['\n'];
        let excerpt = number@ + " | "@ + source@ + seq!['\n'];
        let underline = margin + " | "@ + repeated(' ', span.start.column as nat) + repeated(
            '^',
            underline_width(span),
        ) + seq!['\n'];
        assert(headline =~= "error: "@ + error.summary@ + seq!['\n']);
        assert(through_arrow =~= headline + arrow);
        assert(through_gap =~= through_arrow + gap);
        assert(through_excerpt =~= through_gap + excerpt);
        assert(text@ =~= through_excerpt + underline);
    }
    text
}

} // verus!
