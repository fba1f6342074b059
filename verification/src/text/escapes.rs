//! Escape sequences in string literals, turned into the characters they
//! stand for.

use crate::text::chars::to_chars;
use vstd::prelude::*;

verus! {

/// `char::from_u32` gives the character with the given scalar value, and
/// nothing for a value that is none: a surrogate, or a value beyond the last
/// code point.
pub assume_specification[ char::from_u32 ](value: u32) -> (made: Option<char>)
    ensures
        made is Some <==> (value < 0xD800 || 0xE000 <= value < 0x110000),
        made matches Some(c) ==> c as int == value as int,
;

/// Whether `c` is a digit of base sixteen, in either case.
pub open spec fn is_hex_digit(c: char) -> bool {
    ('0' <= c <= '9') || ('a' <= c <= 'f') || ('A' <= c <= 'F')
}

/// Whether every character of `text` is a digit of base sixteen.
pub open spec fn all_hex_digits(text: Seq<char>) -> bool {
    forall|i: int| 0 <= i < text.len() ==> is_hex_digit(#[trigger] text[i])
}

/// The value of a digit of base sixteen.
pub open spec fn hex_digit_value(c: char) -> int {
    if '0' <= c <= '9' {
        c as int - '0' as int
    } else if 'a' <= c <= 'f' {
        c as int - 'a' as int + 10
    } else {
        c as int - 'A' as int + 10
    }
}

/// The number that a row of digits of base sixteen writes.
pub open spec fn hex_digits_value(digits: Seq<char>) -> int
    decreases digits.len(),
{
    if digits.len() == 0 {
        0
    } else {
        hex_digits_value(digits.drop_last()) * 16 + hex_digit_value(digits.last())
    }
}

/// The number that `text` writes in base sixteen: an optional `+`, then at
/// least one digit and nothing else. Other text writes no number.
pub open spec fn hex_value(text: Seq<char>) -> Option<int> {
    let digits = if text.len() > 0 && text[0] == '+' {
        text.skip(1)
    } else {
        text
    };
    if digits.len() > 0 && all_hex_digits(digits) {
        Some(hex_digits_value(digits))
    } else {
        None
    }
}

/// What the escape `\u` followed by `hex` stands for: the character whose
/// code `hex` writes, or nothing where `hex` writes no number or the number
/// is no character's code.
pub open spec fn unicode_escape(hex: Seq<char>) -> Seq<char> {
    match hex_value(hex) {
        Some(code) => if 0 <= code < 0xD800 || 0xE000 <= code < 0x110000 {
            seq![code as char]
        } else {
            Seq::empty()
        },
        None => Seq::empty(),
    }
}

/// What a backslash followed by `escaped` stands for, `escaped` not being
/// `u`. An escape that is not known stands for itself, backslash included.
pub open spec fn simple_escape(escaped: char) -> Seq<char> {
    if escaped == '"' {
        seq!['"']
    } else if escaped == '\\' {
        seq!['\\']
    } else if escaped == '/' {
        seq!['/']
    } else if escaped == 'b' {
        seq!['\u{0008}']
    } else if escaped == 'f' {
        seq!['\u{000C}']
    } else if escaped == 'n' {
        seq!['\n']
    } else if escaped == 'r' {
        seq!['\r']
    } else if escaped == 't' {
        seq!['\t']
    } else {
        seq!['\\', escaped]
    }
}

/// The text that `source` stands for from place `from` on. A character other
/// than a backslash stands for itself. A backslash and the character after
/// it form an escape; `\u` takes up to four more characters, whatever they
/// are, as the code of a character. A backslash at the very end stands for
/// itself.
pub open spec fn unescaped_from(source: Seq<char>, from: int) -> Seq<char>
    decreases source.len() - from,
{
    if from < 0 || from >= source.len() {
        Seq::empty()
    } else if source[from] != '\\' {
        seq![source[from]] + unescaped_from(source, from + 1)
    } else if from + 1 >= source.len() {
        seq!['\\']
    } else if source[from + 1] == 'u' {
        let end = if from + 6 <= source.len() {
            from + 6
        } else {
            source.len() as int
        };
        unicode_escape(source.subrange(from + 2, end)) + unescaped_from(source, end)
    } else {
        simple_escape(source[from + 1]) + unescaped_from(source, from + 2)
    }
}

/// The text that a string literal's source stands for.
pub open spec fn unescaped(source: Seq<char>) -> Seq<char> {
    unescaped_from(source, 0)
}

/// The value of one digit of base sixteen, or nothing for another
/// character.
fn hex_digit(c: char) -> (value: Option<u32>)
    ensures
        value is Some <==> is_hex_digit(c),
        value matches Some(v) ==> v == hex_digit_value(c) && v < 16,
{
    if '0' <= c && c <= '9' {
        Some(c as u32 - '0' as u32)
    } else if 'a' <= c && c <= 'f' {
        Some(c as u32 - 'a' as u32 + 10)
    } else if 'A' <= c && c <= 'F' {
        Some(c as u32 - 'A' as u32 + 10)
    } else {
        None
    }
}

/// The number that the characters `source[from..end]` write in base
/// sixteen, at most four of them.
fn parse_short_hex(source: &Vec<char>, from: usize, end: usize) -> (value: Option<u32>)
    requires
        from <= end <= source.len(),
        end - from <= 4,
    ensures
        value is Some <==> hex_value(source@.subrange(from as int, end as int)) is Some,
        value matches Some(v) ==> v == hex_value(
            source@.subrange(from as int, end as int),
        ).unwrap(),
{
    let ghost text = source@.subrange(from as int, end as int);
    let mut i: usize = from;
    if from < end && source[from] == '+' {
        i = from + 1;
    }
    let start = i;
    let ghost digits = source@.subrange(start as int, end as int);
    proof {
        if start == from {
            assert(digits =~= text);
        } else {
            assert(digits =~= text.skip(1));
        }
    }
    if start == end {
        return None;
    }
    let mut total: u32 = 0;
    while i < end
        invariant
            start <= i <= end <= source.len(),
            from <= start,
            start < end,
            hex_value(source@.subrange(from as int, end as int)) == if all_hex_digits(digits) {
                Some(hex_digits_value(digits))
            } else {
                None
            },
            end - start <= 4,
            digits == source@.subrange(start as int, end as int),
            all_hex_digits(digits.take(i - start)),
            total == hex_digits_value(digits.take(i - start)),
            total < pow16((i - start) as nat),
        decreases end - i,
    {
        let ghost done = digits.take(i - start);
        let ghost next = digits.take(i - start + 1);
        proof {
            assert(next.drop_last() =~= done);
            assert(next.last() == source@[i as int]);
            assert(digits[i - start] == source@[i as int]);
            reveal_with_fuel(pow16, 5);
        }
        match hex_digit(source[i]) {
            Some(v) => {
                total = total * 16 + v;
            },
            None => {
                assert(!is_hex_digit(digits[i - start]));
                return None;
            },
        }
        assert(all_hex_digits(next)) by {
            assert forall|j: int| 0 <= j < next.len() implies is_hex_digit(
                #[trigger] next[j],
            ) by {
                if j < done.len() {
                    assert(done[j] == next[j]);
                }
            }
        }
        i += 1;
    }
    proof {
        assert(digits.take(end - start) =~= digits);
    }
    Some(total)
}

/// Sixteen to the power of `n`.
pub open spec fn pow16(n: nat) -> int
    decreases n,
{
    if n == 0 {
        1
    } else {
        16 * pow16((n - 1) as nat)
    }
}

/// Turns the escape sequences of a string literal's source into the
/// characters they stand for.
pub fn process_string_escapes(input: &str) -> (result: String)
    ensures
        result@ == unescaped(input@),
{
    let source = to_chars(input);
    let mut result = String::new();
    let mut i: usize = 0;
    let n = source.len();
    while i < n
        invariant
            0 <= i <= n,
            n == source.len(),
            result@ + unescaped_from(source@, i as int) == unescaped(source@),
        decreases n - i,
    {
        let ghost rest = unescaped_from(source@, i as int);
        let ghost before = result@;
        let c = source[i];
        if c != '\\' {
            result.push(c);
            proof {
                assert(result@ + unescaped_from(source@, i + 1) =~= before + rest);
            }
            i += 1;
        } else if i + 1 >= n {
            result.push('\\');
            proof {
                assert(result@ + unescaped_from(source@, i + 1) =~= before + rest);
            }
            i += 1;
        } else {
            let escaped = source[i + 1];
            if escaped == 'u' {
                let end = if n - i >= 6 {
                    i + 6
                } else {
                    n
                };
                let ghost hex = source@.subrange(i + 2, end as int);
                match parse_short_hex(&source, i + 2, end) {
                    Some(code) => {
                        proof {
                            lemma_short_hex_bound(hex);
                        }
                        match char::from_u32(code) {
                            Some(unicode) => {
                                result.push(unicode);
                                assert(hex_value(hex) == Some(code as int));
                                assert(unicode_escape(hex) =~= seq![unicode]);
                            },
                            None => {},
                        }
                    },
                    None => {},
                }
                proof {
                    assert(result@ =~= before + unicode_escape(hex));
                    assert(result@ + unescaped_from(source@, end as int) =~= before + rest);
                }
                i = end;
            } else {
                if escaped == '"' {
                    result.push('"');
                } else if escaped == '\\' {
                    result.push('\\');
                } else if escaped == '/' {
                    result.push('/');
                } else if escaped == 'b' {
                    result.push('\u{0008}');
                } else if escaped == 'f' {
                    result.push('\u{000C}');
                } else if escaped == 'n' {
                    result.push('\n');
                } else if escaped == 'r' {
                    result.push('\r');
                } else if escaped == 't' {
                    result.push('\t');
                } else {
                    result.push('\\');
                    result.push(escaped);
                }
                proof {
                    assert(result@ =~= before + simple_escape(escaped));
                    assert(result@ + unescaped_from(source@, i + 2) =~= before + rest);
                }
                i += 2;
            }
        }
    }
    proof {
        assert(result@ + Seq::<char>::empty() =~= result@);
    }
    result
}

/// Up to four digits of base sixteen write a number below 65536.
proof fn lemma_short_hex_bound(text: Seq<char>)
    requires
        text.len() <= 4,
        hex_value(text) is Some,
    ensures
        0 <= hex_value(text).unwrap() < 0x10000,
{
    let digits = if text.len() > 0 && text[0] == '+' {
        text.skip(1)
    } else {
        text
    };
    lemma_hex_digits_bound(digits);
    reveal_with_fuel(pow16, 5);
}

/// A row of `n` digits of base sixteen writes a number below the `n`th
/// power of sixteen.
proof fn lemma_hex_digits_bound(digits: Seq<char>)
    requires
        all_hex_digits(digits),
    ensures
        0 <= hex_digits_value(digits) < pow16(digits.len()),
    decreases digits.len(),
{
    if digits.len() > 0 {
        let init = digits.drop_last();
        assert forall|i: int| 0 <= i < init.len() implies is_hex_digit(#[trigger] init[i]) by {
            assert(init[i] == digits[i]);
        }
        lemma_hex_digits_bound(init);
        assert(is_hex_digit(digits[digits.len() - 1]));
    }
}

} // verus!
