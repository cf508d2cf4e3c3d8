//! Comparison of names and texts, and the numeric and boolean text formats.
use vstd::prelude::*;

verus! {

/// The characters of a string, one by one.
pub fn chars_of(s: &str) -> (v: Vec<char>)
    ensures
        v@ == s@,
{
    let mut v: Vec<char> = Vec::new();
    for c in it: s.chars()
        invariant
            v@ == it.seq().take(it.index() as int),
    {
        v.push(c);
    }
    v
}

/// The bytes of a tag name spell the given characters, one byte for each.
pub open spec fn spelled(name: Seq<u8>, word: Seq<char>) -> bool {
    &&& name.len() == word.len()
    &&& forall|i: int| 0 <= i < name.len() ==> name[i] as u32 == #[trigger] word[i] as u32
}

/// Whether a tag name is the given word.
pub fn has_name(name: &[u8], word: &str) -> (r: bool)
    ensures
        r == spelled(name@, word@),
{
    let w = chars_of(word);
    if w.len() != name.len() {
        return false;
    }
    let mut i: usize = 0;
    while i < w.len()
        invariant
            w@ == word@,
            w.len() == name@.len(),
            i <= w.len(),
            forall|j: int| 0 <= j < i ==> name@[j] as u32 == #[trigger] word@[j] as u32,
        decreases w.len() - i,
    {
        if name[i] as u32 != w[i] as u32 {
            return false;
        }
        i = i + 1;
    }
    true
}

/// Whether two texts hold the same characters.
pub fn same_text(a: &str, b: &str) -> (r: bool)
    ensures
        r == (a@ == b@),
{
    let x = chars_of(a);
    let y = chars_of(b);
    if x.len() != y.len() {
        return false;
    }
    let mut i: usize = 0;
    while i < x.len()
        invariant
            x@ == a@,
            y@ == b@,
            x.len() == y.len(),
            i <= x.len(),
            forall|j: int| 0 <= j < i ==> x@[j] == y@[j],
        decreases x.len() - i,
    {
        if x[i] != y[i] {
            return false;
        }
        i = i + 1;
    }
    assert(a@ =~= b@);
    true
}

pub open spec fn is_digit(c: char) -> bool {
    '0' <= c && c <= '9'
}

pub open spec fn digit_value(c: char) -> nat {
    (c as u32 - '0' as u32) as nat
}

pub open spec fn all_digits(s: Seq<char>) -> bool {
    forall|i: int| 0 <= i < s.len() ==> is_digit(#[trigger] s[i])
}

/// The number that a run of decimal digits spells.
pub open spec fn digits_value(s: Seq<char>) -> nat
    decreases s.len(),
{
    if s.len() == 0 {
        0
    } else {
        digits_value(s.drop_last()) * 10 + digit_value(s.last())
    }
}

/// The digits of an unsigned integer literal: an optional `+` and at least one digit.
pub open spec fn unsigned_digits(s: Seq<char>) -> Seq<char> {
    if s.len() > 0 && s[0] == '+' {
        s.drop_first()
    } else {
        s
    }
}

/// The value of an unsigned integer literal, if the text is one.
pub open spec fn unsigned_value(s: Seq<char>) -> Option<nat> {
    let d = unsigned_digits(s);
    if d.len() > 0 && all_digits(d) {
        Some(digits_value(d))
    } else {
        None
    }
}

proof fn lemma_digits_value_grows(s: Seq<char>, k: int)
    requires
        0 <= k <= s.len(),
    ensures
        digits_value(s.take(k)) <= digits_value(s),
    decreases s.len() - k,
{
    if k < s.len() {
        lemma_digits_value_grows(s, k + 1);
        assert(s.take(k + 1).drop_last() =~= s.take(k));
        assert(digits_value(s.take(k + 1)) == digits_value(s.take(k)) * 10 + digit_value(
            s.take(k + 1).last(),
        ));
    } else {
        assert(s.take(k) =~= s);
    }
}

/// Reads an unsigned integer literal that must not exceed `max`.
pub fn parse_unsigned(s: &str, max: u32) -> (r: Option<u32>)
    ensures
        match unsigned_value(s@) {
            Some(v) => if v <= max { r == Some(v as u32) } else { r is None },
            None => r is None,
        },
{
    let c = chars_of(s);
    let mut i: usize = 0;
    if c.len() > 0 && c[0] == '+' {
        i = 1;
    }
    let start = i;
    let ghost d = unsigned_digits(s@);
    assert(d =~= c@.skip(start as int));
    if start >= c.len() {
        return None;
    }
    let mut acc: u64 = 0;
    while i < c.len()
        invariant
            c@ == s@,
            d == unsigned_digits(s@),
            d == c@.skip(start as int),
            start <= i <= c.len(),
            all_digits(c@.subrange(start as int, i as int)),
            acc == digits_value(c@.subrange(start as int, i as int)),
            acc <= max,
        decreases c.len() - i,
    {
        let ch = c[i];
        if !('0' <= ch && ch <= '9') {
            proof {
                assert(d[i - start] == c@[i as int]);
                assert(!is_digit(d[i - start]));
            }
            return None;
        }
        let ghost prev = c@.subrange(start as int, i as int);
        let ghost next = c@.subrange(start as int, i + 1);
        assert(next.drop_last() =~= prev);
        assert(next.last() == ch);
        assert(all_digits(next));
        assert(digits_value(next) == digits_value(prev) * 10 + digit_value(ch));
        acc = acc * 10 + (ch as u32 - '0' as u32) as u64;
        i = i + 1;
        if acc > max as u64 {
            proof {
                if all_digits(d) {
                    assert(next =~= d.take(i - start));
                    lemma_digits_value_grows(d, i - start);
                }
            }
            return None;
        }
    }
    assert(c@.subrange(start as int, c.len() as int) =~= d);
    Some(acc as u32)
}

/// Reads `true` or `false`.
pub fn parse_bool(s: &str) -> (r: Option<bool>)
    ensures
        r == bool_value(s@),
{
    if same_text(s, "true") {
        Some(true)
    } else if same_text(s, "false") {
        Some(false)
    } else {
        None
    }
}

pub open spec fn bool_value(s: Seq<char>) -> Option<bool> {
    if s == "true"@ {
        Some(true)
    } else if s == "false"@ {
        Some(false)
    } else {
        None
    }
}

/// The states of the recogniser of decimal numbers with an optional exponent,
/// `( Digit+ | Digit+ '.' Digit* | Digit* '.' Digit+ ) ( [eE] [+-]? Digit+ )?`.
pub enum NumberState {
    Begin,
    Integer,
    PointAfterDigits,
    Fraction,
    PointFirst,
    ExponentMark,
    ExponentSign,
    Exponent,
    Rejected,
}

pub open spec fn number_step(st: NumberState, c: char) -> NumberState {
    let digit = is_digit(c);
    let mark = c == 'e' || c == 'E';
    match st {
        NumberState::Begin => if digit {
            NumberState::Integer
        } else if c == '.' {
            NumberState::PointFirst
        } else {
            NumberState::Rejected
        },
        NumberState::Integer => if digit {
            NumberState::Integer
        } else if c == '.' {
            NumberState::PointAfterDigits
        } else if mark {
            NumberState::ExponentMark
        } else {
            NumberState::Rejected
        },
        NumberState::PointAfterDigits | NumberState::Fraction => if digit {
            NumberState::Fraction
        } else if mark {
            NumberState::ExponentMark
        } else {
            NumberState::Rejected
        },
        NumberState::PointFirst => if digit {
            NumberState::Fraction
        } else {
            NumberState::Rejected
        },
        NumberState::ExponentMark => if digit {
            NumberState::Exponent
        } else if c == '+' || c == '-' {
            NumberState::ExponentSign
        } else {
            NumberState::Rejected
        },
        NumberState::ExponentSign | NumberState::Exponent => if digit {
            NumberState::Exponent
        } else {
            NumberState::Rejected
        },
        NumberState::Rejected => NumberState::Rejected,
    }
}

pub open spec fn number_run(s: Seq<char>) -> NumberState
    decreases s.len(),
{
    if s.len() == 0 {
        NumberState::Begin
    } else {
        number_step(number_run(s.drop_last()), s.last())
    }
}

pub open spec fn is_number(s: Seq<char>) -> bool {
    match number_run(s) {
        NumberState::Integer | NumberState::PointAfterDigits | NumberState::Fraction
        | NumberState::Exponent => true,
        _ => false,
    }
}

/// A character folded to lower case, for the ASCII letters.
pub open spec fn folded(c: char) -> int {
    if 'A' <= c && c <= 'Z' {
        c as u32 + 32
    } else {
        c as u32 as int
    }
}

/// The text is the given lower-case word, in any mix of cases.
pub open spec fn is_word(s: Seq<char>, word: Seq<char>) -> bool {
    &&& s.len() == word.len()
    &&& forall|i: int| 0 <= i < s.len() ==> folded(#[trigger] s[i]) == word[i] as u32
}

pub open spec fn unsigned_float(s: Seq<char>) -> Seq<char> {
    if s.len() > 0 && (s[0] == '+' || s[0] == '-') {
        s.drop_first()
    } else {
        s
    }
}

/// The text is a floating-point literal: an optional sign, then `inf`, `infinity`
/// or `nan` in any case, or a decimal number with an optional exponent.
pub open spec fn is_float_literal(s: Seq<char>) -> bool {
    let b = unsigned_float(s);
    is_word(b, "inf"@) || is_word(b, "infinity"@) || is_word(b, "nan"@) || is_number(b)
}

fn fold_char(c: char) -> (r: u32)
    ensures
        r == folded(c),
{
    if 'A' <= c && c <= 'Z' {
        c as u32 + 32
    } else {
        c as u32
    }
}

/// Whether `s[from..]` is `word`, ignoring the case of ASCII letters.
fn word_at(s: &Vec<char>, from: usize, word: &str) -> (r: bool)
    requires
        from <= s.len(),
    ensures
        r == is_word(s@.skip(from as int), word@),
{
    let w = chars_of(word);
    if s.len() - from != w.len() {
        return false;
    }
    let mut i: usize = 0;
    while i < w.len()
        invariant
            w@ == word@,
            from <= s.len(),
            s.len() - from == w.len(),
            i <= w.len(),
            forall|j: int| 0 <= j < i ==> folded(#[trigger] s@.skip(from as int)[j]) == word@[j] as u32,
        decreases w.len() - i,
    {
        if fold_char(s[from + i]) != w[i] as u32 {
            assert(s@.skip(from as int)[i as int] == s@[from + i]);
            return false;
        }
        i = i + 1;
    }
    true
}

fn step_number(st: NumberState, c: char) -> (r: NumberState)
    ensures
        r == number_step(st, c),
{
    let digit = '0' <= c && c <= '9';
    let mark = c == 'e' || c == 'E';
    match st {
        NumberState::Begin => if digit {
            NumberState::Integer
        } else if c == '.' {
            NumberState::PointFirst
        } else {
            NumberState::Rejected
        },
        NumberState::Integer => if digit {
            NumberState::Integer
        } else if c == '.' {
            NumberState::PointAfterDigits
        } else if mark {
            NumberState::ExponentMark
        } else {
            NumberState::Rejected
        },
        NumberState::PointAfterDigits | NumberState::Fraction => if digit {
            NumberState::Fraction
        } else if mark {
            NumberState::ExponentMark
        } else {
            NumberState::Rejected
        },
        NumberState::PointFirst => if digit {
            NumberState::Fraction
        } else {
            NumberState::Rejected
        },
        NumberState::ExponentMark => if digit {
            NumberState::Exponent
        } else if c == '+' || c == '-' {
            NumberState::ExponentSign
        } else {
            NumberState::Rejected
        },
        NumberState::ExponentSign | NumberState::Exponent => if digit {
            NumberState::Exponent
        } else {
            NumberState::Rejected
        },
        NumberState::Rejected => NumberState::Rejected,
    }
}

/// Whether the text is a floating-point literal.
pub fn check_float_literal(s: &str) -> (r: bool)
    ensures
        r == is_float_literal(s@),
{
    let c = chars_of(s);
    let mut from: usize = 0;
    if c.len() > 0 && (c[0] == '+' || c[0] == '-') {
        from = 1;
    }
    assert(unsigned_float(s@) =~= c@.skip(from as int));
    if word_at(&c, from, "inf") || word_at(&c, from, "infinity") || word_at(&c, from, "nan") {
        return true;
    }
    let mut st = NumberState::Begin;
    let mut i = from;
    while i < c.len()
        invariant
            from <= i <= c.len(),
            st == number_run(c@.subrange(from as int, i as int)),
        decreases c.len() - i,
    {
        assert(c@.subrange(from as int, i + 1).drop_last() =~= c@.subrange(from as int, i as int));
        st = step_number(st, c[i]);
        i = i + 1;
    }
    assert(c@.subrange(from as int, c.len() as int) =~= c@.skip(from as int));
    match st {
        NumberState::Integer | NumberState::PointAfterDigits | NumberState::Fraction
        | NumberState::Exponent => true,
        _ => false,
    }
}

} // verus!
