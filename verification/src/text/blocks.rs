//! Block strings: the lines of a text, and the text freed of the
//! indentation that its lines share.

use crate::text::chars::to_chars;
use vstd::prelude::*;

verus! {

/// Whether `c` is white space: one of the twenty-five characters to which
/// Unicode gives the property `White_Space`. They are the tab, the line
/// feed, the vertical tab, the form feed, the carriage return, the space,
/// the next-line control, the no-break space, the Ogham space mark, the
/// eleven spaces from the en quad to the hair space, the line and paragraph
/// separators, the narrow no-break space, the medium mathematical space and
/// the ideographic space.
pub open spec fn is_white_space(c: char) -> bool {
    let code = c as int;
    ||| 0x0009 <= code <= 0x000D
    ||| code == 0x0020
    ||| code == 0x0085
    ||| code == 0x00A0
    ||| code == 0x1680
    ||| 0x2000 <= code <= 0x200A
    ||| code == 0x2028
    ||| code == 0x2029
    ||| code == 0x202F
    ||| code == 0x205F
    ||| code == 0x3000
}

/// `char::is_whitespace` tells whether the character has Unicode's
/// `White_Space` property, which is held by the characters that
/// `is_white_space` lists and by no other.
pub assume_specification[ char::is_whitespace ](c: char) -> (white: bool)
    ensures
        white == is_white_space(c),
;

/// The number of bytes that `c` takes in UTF-8.
pub open spec fn utf8_len(c: char) -> int {
    if (c as int) < 0x80 {
        1
    } else if (c as int) < 0x800 {
        2
    } else if (c as int) < 0x10000 {
        3
    } else {
        4
    }
}

/// A line without the carriage return at its end, if it has one.
pub open spec fn without_cr(line: Seq<char>) -> Seq<char> {
    if line.len() > 0 && line.last() == '\r' {
        line.drop_last()
    } else {
        line
    }
}

/// The lines of `text` that are still to come when the text has been read
/// up to `from` and the line being read began at `line_start`. A line ends
/// at a line feed; the line feed, and a carriage return directly before it,
/// are not part of the line. What follows the last line feed is a line too,
/// unless nothing follows it; a carriage return at its end stays.
pub open spec fn lines_from(text: Seq<char>, from: int, line_start: int) -> Seq<Seq<char>>
    decreases text.len() - from,
{
    if from < 0 || from >= text.len() {
        if 0 <= line_start < text.len() {
            seq![text.subrange(line_start, text.len() as int)]
        } else {
            Seq::empty()
        }
    } else if text[from] == '\n' {
        seq![without_cr(text.subrange(line_start, from))] + lines_from(text, from + 1, from + 1)
    } else {
        lines_from(text, from + 1, line_start)
    }
}

/// The lines of `text`.
pub open spec fn lines_of(text: Seq<char>) -> Seq<Seq<char>> {
    lines_from(text, 0, 0)
}

/// The lines that a list of character rows holds.
pub open spec fn rows(lines: Seq<Vec<char>>) -> Seq<Seq<char>> {
    lines.map_values(|line: Vec<char>| line@)
}

/// Splits a text into its lines.
fn split_lines(text: &Vec<char>) -> (lines: Vec<Vec<char>>)
    ensures
        rows(lines@) == lines_of(text@),
{
    let mut lines: Vec<Vec<char>> = Vec::new();
    let mut line: Vec<char> = Vec::new();
    let mut start: usize = 0;
    let mut i: usize = 0;
    while i < text.len()
        invariant
            0 <= start <= i <= text.len(),
            line@ == text@.subrange(start as int, i as int),
            rows(lines@) + lines_from(text@, i as int, start as int) == lines_of(text@),
        decreases text.len() - i,
    {
        let c = text[i];
        let ghost before = rows(lines@);
        let ghost rest = lines_from(text@, i as int, start as int);
        if c == '\n' {
            let n = line.len();
            if n > 0 && line[n - 1] == '\r' {
                line.pop();
            }
            assert(line@ =~= without_cr(text@.subrange(start as int, i as int)));
            let ghost finished = line@;
            lines.push(line);
            line = Vec::new();
            start = i + 1;
            proof {
                assert(rows(lines@) =~= before.push(finished));
                assert(rows(lines@) + lines_from(text@, i + 1, i + 1) =~= before + rest);
                assert(line@ =~= text@.subrange(i + 1, i + 1));
            }
        } else {
            line.push(c);
            proof {
                assert(line@ =~= text@.subrange(start as int, i + 1));
            }
        }
        i += 1;
    }
    let ghost before = rows(lines@);
    if start < text.len() {
        assert(line@ =~= text@.subrange(start as int, text@.len() as int));
        let ghost finished = line@;
        lines.push(line);
        proof {
            assert(rows(lines@) =~= before.push(finished));
            assert(rows(lines@) =~= before + lines_from(text@, i as int, start as int));
        }
    } else {
        proof {
            assert(before + Seq::<Seq<char>>::empty() =~= before);
        }
    }
    lines
}

/// Where the run of white space ends that begins at `from` in `line`.
pub open spec fn white_run_end(line: Seq<char>, from: int) -> int
    decreases line.len() - from,
{
    if from < 0 || from >= line.len() || !is_white_space(line[from]) {
        from
    } else {
        white_run_end(line, from + 1)
    }
}

/// A line is blank when it holds nothing but white space.
pub open spec fn is_blank(line: Seq<char>) -> bool {
    white_run_end(line, 0) == line.len()
}

/// The number of bytes that the characters of `line` before place `upto`
/// take in UTF-8.
pub open spec fn bytes_before(line: Seq<char>, upto: int) -> int
    decreases upto,
{
    if upto <= 0 || upto > line.len() {
        0
    } else {
        bytes_before(line, upto - 1) + utf8_len(line[upto - 1])
    }
}

/// A line's indentation: the number of bytes that its leading white space
/// takes.
pub open spec fn indent_of(line: Seq<char>) -> int {
    bytes_before(line, white_run_end(line, 0))
}

/// Walking along `line` from place `from` with `budget` bytes to spend, one
/// character at a time: the place reached and what is left of the budget
/// when the budget is spent or the line ends. Something negative is left
/// where the budget ran out inside a character.
pub open spec fn walk(line: Seq<char>, from: int, budget: int) -> (int, int)
    decreases line.len() - from,
{
    if from < 0 || from >= line.len() || budget <= 0 {
        (from, budget)
    } else {
        walk(line, from + 1, budget - utf8_len(line[from]))
    }
}

/// Whether `indent` bytes can be taken off the front of `line`, or the line
/// is shorter and is left alone: the cut does not fall inside a character.
pub open spec fn can_strip(line: Seq<char>, indent: int) -> bool {
    walk(line, 0, indent).1 >= 0
}

/// `line` without its first `indent` bytes; a line shorter than that is
/// left as it is.
pub open spec fn stripped(line: Seq<char>, indent: int) -> Seq<char> {
    let reached = walk(line, 0, indent);
    if reached.1 > 0 {
        line
    } else {
        line.skip(reached.0)
    }
}

/// The number of bytes that `c` takes in UTF-8.
fn char_len(c: char) -> (len: u128)
    ensures
        len == utf8_len(c),
        1 <= len <= 4,
{
    let code = c as u32;
    if code < 0x80 {
        1
    } else if code < 0x800 {
        2
    } else if code < 0x10000 {
        3
    } else {
        4
    }
}

/// Measures the leading white space of a line: whether the line is blank,
/// and the bytes that the white space takes.
fn measure_indent(line: &Vec<char>) -> (measure: (bool, u128))
    ensures
        measure.0 == is_blank(line@),
        measure.1 == indent_of(line@),
{
    let mut bytes: u128 = 0;
    let mut i: usize = 0;
    while i < line.len() && line[i].is_whitespace()
        invariant
            0 <= i <= line.len(),
            white_run_end(line@, i as int) == white_run_end(line@, 0),
            bytes == bytes_before(line@, i as int),
            bytes <= 4 * i,
        decreases line.len() - i,
    {
        bytes = bytes + char_len(line[i]);
        i += 1;
    }
    (i == line.len(), bytes)
}

/// Takes `indent` bytes off the front of `line`. Gives the place where the
/// rest begins, or nothing where the cut would fall inside a character.
fn strip_point(line: &Vec<char>, indent: u128) -> (point: Option<usize>)
    ensures
        point is Some <==> can_strip(line@, indent as int),
        point matches Some(at) ==> at <= line.len() && line@.skip(at as int) == stripped(
            line@,
            indent as int,
        ),
{
    let mut used: u128 = 0;
    let mut i: usize = 0;
    while i < line.len() && used < indent
        invariant
            0 <= i <= line.len(),
            used <= 4 * i,
            used <= indent + 3,
            walk(line@, i as int, indent - used) == walk(line@, 0, indent as int),
        decreases line.len() - i,
    {
        used = used + char_len(line[i]);
        i += 1;
    }
    if used > indent {
        None
    } else if used < indent {
        assert(line@.skip(0) =~= line@);
        Some(0)
    } else {
        Some(i)
    }
}

/// The lines of a block string that count: all of them, but for a blank
/// first line and, where there is more than one line, a blank last line.
pub open spec fn counted_lines(lines: Seq<Seq<char>>) -> Seq<Seq<char>> {
    if lines.len() == 0 {
        lines
    } else {
        let first: int = if is_blank(lines[0]) {
            1
        } else {
            0
        };
        let end: int = if lines.len() > 1 && is_blank(lines[lines.len() - 1]) {
            lines.len() - 1
        } else {
            lines.len() as int
        };
        lines.subrange(first, end)
    }
}

/// The smallest indentation among the first `upto` of `lines`, blank lines
/// not counted; nothing where all of them are blank.
pub open spec fn least_indent(lines: Seq<Seq<char>>, upto: int) -> Option<int>
    decreases upto,
{
    if upto <= 0 || upto > lines.len() {
        None
    } else {
        let before = least_indent(lines, upto - 1);
        let line = lines[upto - 1];
        if is_blank(line) {
            before
        } else {
            match before {
                Some(least) => if indent_of(line) < least {
                    Some(indent_of(line))
                } else {
                    Some(least)
                },
                None => Some(indent_of(line)),
            }
        }
    }
}

/// The indentation that the lines share: the smallest among those that are
/// not blank, and zero where all are blank.
pub open spec fn common_indent(lines: Seq<Seq<char>>) -> int {
    match least_indent(lines, lines.len() as int) {
        Some(least) => least,
        None => 0,
    }
}

/// The first `upto` of `lines`, each without its first `indent` bytes, with
/// a line feed between one line and the next.
pub open spec fn joined(lines: Seq<Seq<char>>, indent: int, upto: int) -> Seq<char>
    decreases upto,
{
    if upto <= 0 || upto > lines.len() {
        Seq::empty()
    } else if upto == 1 {
        stripped(lines[0], indent)
    } else {
        joined(lines, indent, upto - 1) + seq!['\n'] + stripped(lines[upto - 1], indent)
    }
}

/// Whether the common indentation can be taken off every counted line of
/// `text`: on no line does the cut fall inside a character. That is so for
/// every text whose white space is made of one-byte characters.
pub open spec fn is_regular_block(text: Seq<char>) -> bool {
    let lines = counted_lines(lines_of(text));
    forall|i: int| 0 <= i < lines.len() ==> can_strip(#[trigger] lines[i], common_indent(lines))
}

/// What a block string stands for: its counted lines without their common
/// indentation, with a line feed between one line and the next.
pub open spec fn block_string_value(text: Seq<char>) -> Seq<char> {
    let lines = counted_lines(lines_of(text));
    joined(lines, common_indent(lines), lines.len() as int)
}

/// The counted lines of a text, as the places of the first of them and of
/// the one after the last in the list of all lines.
fn counted_range(lines: &Vec<Vec<char>>) -> (range: (usize, usize))
    ensures
        range.0 <= range.1 <= lines.len(),
        rows(lines@).subrange(range.0 as int, range.1 as int) == counted_lines(rows(lines@)),
{
    let n = lines.len();
    if n == 0 {
        assert(rows(lines@).subrange(0, 0) =~= rows(lines@));
        return (0, 0);
    }
    let first: usize = if measure_indent(&lines[0]).0 {
        1
    } else {
        0
    };
    let end: usize = if n > 1 && measure_indent(&lines[n - 1]).0 {
        n - 1
    } else {
        n
    };
    (first, end)
}

/// The indentation that the lines `lines[first..end]` share.
fn shared_indent(lines: &Vec<Vec<char>>, first: usize, end: usize) -> (indent: u128)
    requires
        first <= end <= lines.len(),
    ensures
        indent == common_indent(rows(lines@).subrange(first as int, end as int)),
{
    let ghost counted = rows(lines@).subrange(first as int, end as int);
    let mut least: Option<u128> = None;
    let mut i: usize = first;
    while i < end
        invariant
            first <= i <= end <= lines.len(),
            counted == rows(lines@).subrange(first as int, end as int),
            match least {
                Some(l) => least_indent(counted, i - first) == Some(l as int),
                None => least_indent(counted, i - first) is None,
            },
        decreases end - i,
    {
        assert(counted[i - first] == lines@[i as int]@);
        let measure = measure_indent(&lines[i]);
        if !measure.0 {
            least = match least {
                Some(l) => if measure.1 < l {
                    Some(measure.1)
                } else {
                    Some(l)
                },
                None => Some(measure.1),
            };
        }
        i += 1;
    }
    match least {
        Some(l) => l,
        None => 0,
    }
}

/// Tells whether the common indentation can be taken off every counted line
/// of `input`.
pub fn is_regular_block_string(input: &str) -> (regular: bool)
    ensures
        regular == is_regular_block(input@),
{
    let text = to_chars(input);
    let lines = split_lines(&text);
    let (first, end) = counted_range(&lines);
    let indent = shared_indent(&lines, first, end);
    let ghost counted = counted_lines(lines_of(input@));
    let mut i: usize = first;
    while i < end
        invariant
            first <= i <= end <= lines.len(),
            counted == rows(lines@).subrange(first as int, end as int),
            indent == common_indent(counted),
            counted == counted_lines(lines_of(input@)),
            forall|j: int| 0 <= j < i - first ==> can_strip(#[trigger] counted[j], indent as int),
        decreases end - i,
    {
        assert(counted[i - first] == lines@[i as int]@);
        if strip_point(&lines[i], indent).is_none() {
            assert(!can_strip(counted[i - first], common_indent(counted)));
            return false;
        }
        i += 1;
    }
    true
}

/// Frees a block string of the indentation that its lines share. A blank
/// first line and a blank last line are dropped; the other lines lose the
/// common indentation and are joined by line feeds.
pub fn process_block_string(input: &str) -> (result: String)
    requires
        is_regular_block(input@),
    ensures
        result@ == block_string_value(input@),
{
    let text = to_chars(input);
    let lines = split_lines(&text);
    let (first, end) = counted_range(&lines);
    let indent = shared_indent(&lines, first, end);
    let ghost counted = counted_lines(lines_of(input@));
    let mut result = String::new();
    let mut i: usize = first;
    while i < end
        invariant
            first <= i <= end <= lines.len(),
            counted == rows(lines@).subrange(first as int, end as int),
            indent == common_indent(counted),
            forall|j: int| 0 <= j < counted.len() ==> can_strip(#[trigger] counted[j], indent as int),
            result@ == joined(counted, indent as int, i - first),
        decreases end - i,
    {
        assert(counted[i - first] == lines@[i as int]@);
        if i > first {
            result.push('\n');
        }
        let line = &lines[i];
        let ghost head = result@;
        match strip_point(line, indent) {
            Some(at) => {
                let mut j: usize = at;
                while j < line.len()
                    invariant
                        at <= j <= line.len(),
                        result@ == head + line@.subrange(at as int, j as int),
                    decreases line.len() - j,
                {
                    result.push(line[j]);
                    assert(line@.subrange(at as int, j + 1) =~= line@.subrange(
                        at as int,
                        j as int,
                    ).push(line@[j as int]));
                    j += 1;
                }
                assert(line@.subrange(at as int, line@.len() as int) =~= line@.skip(at as int));
            },
            None => {},
        }
        i += 1;
    }
    result
}

/// Frees a block string of its common indentation where that can be done,
/// and gives nothing where the cut would fall inside a character on some
/// line.
pub fn try_process_block_string(input: &str) -> (result: Option<String>)
    ensures
        match result {
            Some(text) => is_regular_block(input@) && text@ == block_string_value(input@),
            None => !is_regular_block(input@),
        },
{
    if is_regular_block_string(input) {
        Some(process_block_string(input))
    } else {
        None
    }
}

/// Every white-space character of `text` takes one byte.
pub open spec fn white_space_is_one_byte(text: Seq<char>) -> bool {
    forall|i: int| 0 <= i < text.len() && is_white_space(#[trigger] text[i]) ==> utf8_len(text[i]) == 1
}

/// A text whose white space is made of one-byte characters is a regular
/// block: its common indentation can be taken off every counted line.
pub proof fn lemma_one_byte_white_space_is_regular(text: Seq<char>)
    requires
        white_space_is_one_byte(text),
    ensures
        is_regular_block(text),
{
    let all = lines_of(text);
    let lines = counted_lines(all);
    let indent = common_indent(lines);
    assert forall|i: int| 0 <= i < lines.len() implies can_strip(#[trigger] lines[i], indent) by {
        let line = lines[i];
        let k = choose|k: int| 0 <= k < all.len() && all[k] == line;
        lemma_lines_are_pieces(text, 0, 0, k);
        lemma_least_indent_is_least(lines, lines.len() as int, i);
        lemma_white_run_bounds(line, 0);
        lemma_bytes_before_bounds(line, white_run_end(line, 0));
        lemma_walk_through_white_space(line, 0, indent);
    }
}

/// Every line of a text is a piece of the text.
proof fn lemma_lines_are_pieces(text: Seq<char>, from: int, line_start: int, k: int)
    requires
        0 <= line_start <= from <= text.len(),
        0 <= k < lines_from(text, from, line_start).len(),
    ensures
        exists|lo: int, hi: int|
            0 <= lo <= hi <= text.len() && lines_from(text, from, line_start)[k]
                == #[trigger] text.subrange(lo, hi),
        white_space_is_one_byte(text) ==> white_space_is_one_byte(
            lines_from(text, from, line_start)[k],
        ),
    decreases text.len() - from,
{
    let line = lines_from(text, from, line_start)[k];
    if from >= text.len() {
        assert(line == text.subrange(line_start, text.len() as int));
    } else if text[from] == '\n' {
        if k == 0 {
            let whole = text.subrange(line_start, from);
            if whole.len() > 0 && whole.last() == '\r' {
                assert(line =~= text.subrange(line_start, from - 1));
            } else {
                assert(line == text.subrange(line_start, from));
            }
        } else {
            lemma_lines_are_pieces(text, from + 1, from + 1, k - 1);
            assert(line == lines_from(text, from + 1, from + 1)[k - 1]);
        }
    } else {
        lemma_lines_are_pieces(text, from + 1, line_start, k);
    }
    let (lo, hi) = choose|lo: int, hi: int|
        0 <= lo <= hi <= text.len() && line == #[trigger] text.subrange(lo, hi);
    if white_space_is_one_byte(text) {
        assert forall|i: int| 0 <= i < line.len() && is_white_space(
            #[trigger] line[i],
        ) implies utf8_len(line[i]) == 1 by {
            assert(line[i] == text[lo + i]);
        }
    }
}

/// The least indentation is not above the indentation of any line that
/// counts, and it is not negative.
proof fn lemma_least_indent_is_least(lines: Seq<Seq<char>>, upto: int, i: int)
    requires
        0 <= i < upto <= lines.len(),
    ensures
        0 <= common_indent(lines),
        least_indent(lines, upto) matches Some(least) ==> 0 <= least && (!is_blank(lines[i])
            ==> least <= indent_of(lines[i])),
        least_indent(lines, upto) is None ==> is_blank(lines[i]),
    decreases upto,
{
    lemma_white_run_bounds(lines[upto - 1], 0);
    lemma_bytes_before_bounds(lines[upto - 1], white_run_end(lines[upto - 1], 0));
    if i < upto - 1 {
        lemma_least_indent_is_least(lines, upto - 1, i);
    }
    lemma_least_indent_not_negative(lines, upto - 1);
    lemma_least_indent_not_negative(lines, lines.len() as int);
}

/// The least indentation is not negative.
proof fn lemma_least_indent_not_negative(lines: Seq<Seq<char>>, upto: int)
    ensures
        least_indent(lines, upto) matches Some(least) ==> 0 <= least,
    decreases upto,
{
    if 0 < upto <= lines.len() {
        lemma_least_indent_not_negative(lines, upto - 1);
        lemma_bytes_before_bounds(lines[upto - 1], white_run_end(lines[upto - 1], 0));
    }
}

/// A run of white space ends within the line, and all of it is white.
proof fn lemma_white_run_bounds(line: Seq<char>, from: int)
    requires
        0 <= from <= line.len(),
    ensures
        from <= white_run_end(line, from) <= line.len(),
        forall|i: int| from <= i < white_run_end(line, from) ==> is_white_space(#[trigger] line[i]),
    decreases line.len() - from,
{
    if from < line.len() && is_white_space(line[from]) {
        lemma_white_run_bounds(line, from + 1);
    }
}

/// Characters take at least one byte each.
proof fn lemma_bytes_before_bounds(line: Seq<char>, upto: int)
    ensures
        0 <= bytes_before(line, upto),
        0 <= upto <= line.len() ==> upto <= bytes_before(line, upto),
        white_space_is_one_byte(line) && 0 <= upto <= white_run_end(line, 0) && upto <= line.len()
            ==> bytes_before(line, upto) == upto,
    decreases upto,
{
    if 0 < upto <= line.len() {
        lemma_bytes_before_bounds(line, upto - 1);
        if white_space_is_one_byte(line) && upto <= white_run_end(line, 0) {
            lemma_white_run_bounds(line, 0);
            assert(is_white_space(line[upto - 1]));
        }
    }
}

/// In a line whose white space is made of one-byte characters, a budget
/// that is spent within the leading white space, or is not spent before a
/// blank line ends, never runs out inside a character.
proof fn lemma_walk_through_white_space(line: Seq<char>, from: int, budget: int)
    requires
        white_space_is_one_byte(line),
        0 <= from <= white_run_end(line, 0) <= line.len(),
        0 <= budget,
        is_blank(line) || from + budget <= white_run_end(line, 0),
    ensures
        walk(line, from, budget).1 >= 0,
    decreases line.len() - from,
{
    if from < line.len() && budget > 0 {
        lemma_white_run_bounds(line, 0);
        assert(from < white_run_end(line, 0));
        assert(is_white_space(line[from]));
        lemma_walk_through_white_space(line, from + 1, budget - 1);
    }
}

} // verus!
