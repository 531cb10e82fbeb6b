//! Text: comparison, search, and decimal digits.
use vstd::prelude::*;
use vstd::string::*;

verus! {

/// The character of the decimal digit `d`.
pub open spec fn digit_char(d: int) -> char {
    (48 + d) as char
}

/// Whether `c` is an ASCII decimal digit.
pub open spec fn is_digit(c: char) -> bool {
    '0' <= c <= '9'
}

/// Whether `text` is made of ASCII decimal digits.
pub open spec fn all_digits(text: Seq<char>) -> bool {
    forall|i: int| 0 <= i < text.len() ==> is_digit(#[trigger] text[i])
}

/// The number that decimal digits stand for.
pub open spec fn number_of(text: Seq<char>) -> int
    decreases text.len(),
{
    if text.len() == 0 {
        0
    } else {
        10 * number_of(text.drop_last()) + (text.last() as int - 48)
    }
}

/// `n` in decimal digits.
pub open spec fn digits_of(n: nat) -> Seq<char>
    decreases n,
{
    if n < 10 {
        seq![digit_char(n as int)]
    } else {
        digits_of(n / 10).push(digit_char((n % 10) as int))
    }
}

/// `n` in decimal digits, with a minus sign in front where it is negative.
pub open spec fn signed_digits_of(n: int) -> Seq<char> {
    if n < 0 {
        seq!['-'] + digits_of((-n) as nat)
    } else {
        digits_of(n as nat)
    }
}

/// The unsigned number that `text` stands for: decimal digits, with at most one plus sign in
/// front, whose value fits in 64 bits.
pub open spec fn unsigned_of(text: Seq<char>) -> Option<u64> {
    let body = if text.len() > 0 && text[0] == '+' {
        text.skip(1)
    } else {
        text
    };
    if body.len() > 0 && all_digits(body) && number_of(body) <= u64::MAX {
        Some(number_of(body) as u64)
    } else {
        None
    }
}

/// `needle` stands in `text` from position `at` on.
pub open spec fn occurs_at(text: Seq<char>, needle: Seq<char>, at: int) -> bool {
    0 <= at && at + needle.len() <= text.len() && text.subrange(at, at + needle.len()) == needle
}

/// `needle` stands somewhere in `text`.
pub open spec fn occurs_in(text: Seq<char>, needle: Seq<char>) -> bool {
    exists|at: int| occurs_at(text, needle, at)
}

/// The part of `text` behind its last `separator`, or all of it where there is none.
pub open spec fn after_last(text: Seq<char>, separator: char) -> Seq<char>
    decreases text.len(),
{
    if text.len() == 0 || text.last() == separator {
        Seq::empty()
    } else {
        after_last(text.drop_last(), separator).push(text.last())
    }
}

/// Whether the two texts are the same.
pub fn same_text(a: &str, b: &str) -> (r: bool)
    ensures
        r == (a@ == b@),
{
    let n: usize = a.unicode_len();
    if n != b.unicode_len() {
        return false;
    }
    let mut i: usize = 0;
    while i < n
        invariant
            n == a@.len(),
            n == b@.len(),
            i <= n,
            forall|j: int| 0 <= j < i ==> a@[j] == b@[j],
        decreases n - i,
    {
        if a.get_char(i) != b.get_char(i) {
            return false;
        }
        i = i + 1;
    }
    assert(a@ =~= b@);
    true
}

fn occurs_here(text: &str, needle: &str, at: usize, n: usize) -> (r: bool)
    requires
        n == needle@.len(),
        at + n <= text@.len(),
        text@.len() <= usize::MAX,
    ensures
        r == occurs_at(text@, needle@, at as int),
{
    let mut i: usize = 0;
    while i < n
        invariant
            n == needle@.len(),
            at + n <= text@.len(),
            text@.len() <= usize::MAX,
            i <= n,
            forall|j: int| 0 <= j < i ==> text@[at + j] == needle@[j],
        decreases n - i,
    {
        if text.get_char(at + i) != needle.get_char(i) {
            assert(text@.subrange(at as int, at + n)[i as int] == text@[at + i]);
            return false;
        }
        i = i + 1;
    }
    assert(text@.subrange(at as int, at + n) =~= needle@);
    true
}

/// Whether `needle` stands somewhere in `text`.
pub fn contains_text(text: &str, needle: &str) -> (r: bool)
    ensures
        r == occurs_in(text@, needle@),
{
    let total: usize = text.unicode_len();
    let n: usize = needle.unicode_len();
    if n > total {
        assert forall|at: int| !occurs_at(text@, needle@, at) by {}
        return false;
    }
    let last: usize = total - n;
    let mut at: usize = 0;
    loop
        invariant
            total == text@.len(),
            n == needle@.len(),
            n <= total,
            last == total - n,
            at <= last,
            forall|j: int| 0 <= j < at ==> !occurs_at(text@, needle@, j),
        decreases last - at,
    {
        if occurs_here(text, needle, at, n) {
            return true;
        }
        if at == last {
            assert forall|j: int| !occurs_at(text@, needle@, j) by {}
            return false;
        }
        at = at + 1;
    }
}

fn digit_text(d: u64) -> (r: &'static str)
    requires
        d < 10,
    ensures
        r@ == seq![digit_char(d as int)],
{
    proof {
        reveal_strlit("0");
        reveal_strlit("1");
        reveal_strlit("2");
        reveal_strlit("3");
        reveal_strlit("4");
        reveal_strlit("5");
        reveal_strlit("6");
        reveal_strlit("7");
        reveal_strlit("8");
        reveal_strlit("9");
    }
    let r = if d == 0 {
        "0"
    } else if d == 1 {
        "1"
    } else if d == 2 {
        "2"
    } else if d == 3 {
        "3"
    } else if d == 4 {
        "4"
    } else if d == 5 {
        "5"
    } else if d == 6 {
        "6"
    } else if d == 7 {
        "7"
    } else if d == 8 {
        "8"
    } else {
        "9"
    };
    assert(r@ =~= seq![digit_char(d as int)]);
    r
}

/// `n` in decimal digits.
pub fn unsigned_text(n: u64) -> (r: String)
    ensures
        r@ == digits_of(n as nat),
    decreases n,
{
    if n < 10 {
        digit_text(n).to_owned()
    } else {
        let mut r = unsigned_text(n / 10);
        r.append(digit_text(n % 10));
        assert(r@ =~= digits_of(n as nat));
        r
    }
}

/// `n` in decimal digits, with a minus sign in front where it is negative.
pub fn signed_text(n: i64) -> (r: String)
    ensures
        r@ == signed_digits_of(n as int),
{
    if n >= 0 {
        unsigned_text(n as u64)
    } else {
        let mut r = "-".to_owned();
        proof {
            reveal_strlit("-");
        }
        let magnitude: u64 = (-(n as i128)) as u64;
        r.append(unsigned_text(magnitude).as_str());
        assert(r@ =~= signed_digits_of(n as int));
        r
    }
}

proof fn lemma_number_of_grows(text: Seq<char>, n: int)
    requires
        all_digits(text),
        0 <= n <= text.len(),
    ensures
        0 <= number_of(text.take(n)) <= number_of(text),
    decreases text.len(),
{
    if n == text.len() {
        assert(text.take(n) =~= text);
        if n > 0 {
            let shorter = text.drop_last();
            assert(all_digits(shorter));
            lemma_number_of_grows(shorter, shorter.len() as int);
            assert(shorter.take(shorter.len() as int) =~= shorter);
        }
    } else {
        let shorter = text.drop_last();
        assert(all_digits(shorter));
        lemma_number_of_grows(shorter, n);
        assert(shorter.take(n) =~= text.take(n));
        assert(is_digit(text.last()));
    }
}

/// The unsigned number that `text` stands for, as [`unsigned_of`] says.
pub fn parse_unsigned(text: &str) -> (r: Option<u64>)
    ensures
        r == unsigned_of(text@),
{
    let total: usize = text.unicode_len();
    if total == 0 {
        return None;
    }
    let start: usize = if text.get_char(0) == '+' {
        1
    } else {
        0
    };
    let ghost body = text@.skip(start as int);
    assert(start == 0 ==> body =~= text@);
    if start == total {
        return None;
    }
    let mut value: u64 = 0;
    let mut i: usize = start;
    while i < total
        invariant
            total == text@.len(),
            start <= i <= total,
            total > 0,
            start == (if text@[0] == '+' {
                1int
            } else {
                0int
            }),
            body == text@.skip(start as int),
            start == 0 ==> body == text@,
            value == number_of(body.take(i - start)),
            all_digits(body.take(i - start)),
        decreases total - i,
    {
        let c: char = text.get_char(i);
        assert(body[i - start] == c);
        if !('0' <= c && c <= '9') {
            assert(!is_digit(body[i - start]));
            return None;
        }
        let d: u64 = (c as u32 - 48) as u64;
        let ghost next = body.take(i - start + 1);
        assert(next.drop_last() =~= body.take(i - start));
        assert(next.last() == c);
        assert(number_of(next) == 10 * value + d);
        let wide: u128 = (value as u128) * 10 + d as u128;
        if wide > u64::MAX as u128 {
            proof {
                if all_digits(body) {
                    lemma_number_of_grows(body, i - start + 1);
                }
            }
            return None;
        }
        value = wide as u64;
        i = i + 1;
        assert(all_digits(next)) by {
            assert forall|j: int| 0 <= j < next.len() implies is_digit(#[trigger] next[j]) by {
                if j < next.len() - 1 {
                    assert(next[j] == next.drop_last()[j]);
                }
            }
        }
    }
    assert(body.take(total - start) =~= body);
    Some(value)
}

/// The part of `text` behind its last `separator`, or all of it where there is none.
pub fn last_part(text: &str, separator: char) -> (r: &str)
    ensures
        r@ == after_last(text@, separator),
{
    let total: usize = text.unicode_len();
    let mut start: usize = total;
    proof {
        assert(text@.subrange(start as int, total as int) =~= Seq::<char>::empty());
        assert(text@.take(total as int) =~= text@);
    }
    while start > 0 && text.get_char(start - 1) != separator
        invariant
            total == text@.len(),
            start <= total,
            after_last(text@, separator) == after_last(text@.take(start as int), separator)
                + text@.subrange(start as int, total as int),
        decreases start,
    {
        proof {
            let head = text@.take(start as int);
            assert(head.drop_last() =~= text@.take(start - 1));
            assert(head.last() == text@[start - 1]);
            assert(after_last(head, separator) == after_last(text@.take(start - 1), separator).push(
                text@[start - 1],
            ));
            assert(text@.subrange(start - 1, total as int) =~= seq![text@[start - 1]]
                + text@.subrange(start as int, total as int));
            assert(after_last(text@, separator) =~= after_last(text@.take(start - 1), separator)
                + text@.subrange(start - 1, total as int));
        }
        start = start - 1;
    }
    proof {
        assert(after_last(text@.take(start as int), separator) =~= Seq::<char>::empty());
        assert(after_last(text@, separator) =~= text@.subrange(start as int, total as int));
    }
    text.substring_char(start, total)
}

/// The digits of a number stand for that number.
pub proof fn law_digits_read_back(n: nat)
    ensures
        all_digits(digits_of(n)),
        digits_of(n).len() > 0,
        number_of(digits_of(n)) == n,
    decreases n,
{
    let text = digits_of(n);
    if n < 10 {
        assert(text.drop_last() =~= Seq::<char>::empty());
        assert(number_of(text.drop_last()) == 0);
    } else {
        law_digits_read_back(n / 10);
        assert(text.drop_last() =~= digits_of(n / 10));
        assert forall|i: int| 0 <= i < text.len() implies is_digit(#[trigger] text[i]) by {
            if i < text.len() - 1 {
                assert(text[i] == digits_of(n / 10)[i]);
            }
        }
    }
}

/// The number whose digits a text holds is read from it, with or without a plus sign in front,
/// where it fits in 64 bits; a text without digits, with two signs or with anything but digits
/// behind its first character stands for no number.
pub proof fn law_numbers_are_read_back(n: nat, text: Seq<char>, at: int)
    ensures
        n <= u64::MAX ==> unsigned_of(digits_of(n)) == Some(n as u64),
        n <= u64::MAX ==> unsigned_of(seq!['+'] + digits_of(n)) == Some(n as u64),
        n > u64::MAX ==> unsigned_of(digits_of(n)) is None,
        unsigned_of(Seq::empty()) is None,
        unsigned_of(seq!['+']) is None,
        1 <= at < text.len() && !('0' <= text[at] <= '9') ==> unsigned_of(text) is None,
        text.len() > 0 && text[0] != '+' && !('0' <= text[0] <= '9') ==> unsigned_of(text) is None,
{
    law_digits_read_back(n);
    let digits = digits_of(n);
    assert(is_digit(digits[0]));
    assert((seq!['+'] + digits).skip(1) =~= digits);
    assert(seq!['+'].skip(1) =~= Seq::<char>::empty());
    if 1 <= at < text.len() {
        assert(text.skip(1)[at - 1] == text[at]);
    }
}

/// A further digit makes a number ten times as large and adds its value; zeros in front do not
/// count.
pub proof fn law_every_digit_counts(text: Seq<char>, d: int)
    requires
        0 <= d < 10,
        all_digits(text),
    ensures
        number_of(text.push((48 + d) as char)) == 10 * number_of(text) + d,
        number_of(seq!['0'] + text) == number_of(text),
    decreases text.len(),
{
    assert(text.push((48 + d) as char).drop_last() =~= text);
    let longer = seq!['0'] + text;
    if text.len() == 0 {
        assert(longer =~= seq!['0']);
        assert(longer.drop_last() =~= Seq::<char>::empty());
        assert(number_of(longer.drop_last()) == 0);
    } else {
        let shorter = text.drop_last();
        assert(all_digits(shorter));
        law_every_digit_counts(shorter, d);
        assert(longer.drop_last() =~= seq!['0'] + shorter);
        assert(longer.last() == text.last());
    }
}

/// A text stands in another one exactly where that one is the text with something, or nothing, in
/// front of it and behind it.
pub proof fn law_a_text_stands_between_two_others(text: Seq<char>, needle: Seq<char>)
    ensures
        occurs_in(text, needle) <==> exists|front: Seq<char>, back: Seq<char>|
            text == #[trigger] (front + needle + back),
{
    if occurs_in(text, needle) {
        let at = choose|at: int| occurs_at(text, needle, at);
        let front = text.take(at);
        let back = text.skip(at + needle.len());
        assert(front + needle + back =~= text) by {
            assert forall|i: int| 0 <= i < text.len() implies (front + needle + back)[i]
                == text[i] by {
                if at <= i < at + needle.len() {
                    assert(text.subrange(at, at + needle.len())[i - at] == text[i]);
                }
            }
        }
    }
    if exists|front: Seq<char>, back: Seq<char>| text == #[trigger] (front + needle + back) {
        let (front, back) = choose|front: Seq<char>, back: Seq<char>|
            text == #[trigger] (front + needle + back);
        let at = front.len() as int;
        assert(text.subrange(at, at + needle.len()) =~= needle);
        assert(occurs_at(text, needle, at));
    }
}

/// What stands behind a separator that is not repeated is the last part of a text; a text without
/// the separator is its own last part.
pub proof fn law_the_last_part_stands_behind_the_last_separator(
    front: Seq<char>,
    back: Seq<char>,
    separator: char,
)
    requires
        forall|i: int| 0 <= i < back.len() ==> back[i] != separator,
    ensures
        after_last(front.push(separator) + back, separator) == back,
        after_last(back, separator) == back,
    decreases back.len(),
{
    if back.len() == 0 {
        assert(front.push(separator) + back =~= front.push(separator));
    } else {
        let text = front.push(separator) + back;
        assert(text.drop_last() =~= front.push(separator) + back.drop_last());
        assert(text.last() == back.last());
        law_the_last_part_stands_behind_the_last_separator(front, back.drop_last(), separator);
        assert(back.drop_last().push(back.last()) =~= back);
    }
}

/// A negative number has a minus sign in front of the digits of its magnitude, any other none.
pub proof fn law_a_minus_sign_marks_the_negative(n: nat)
    ensures
        n > 0 ==> signed_digits_of(-n) == seq!['-'] + digits_of(n),
        signed_digits_of(n as int) == digits_of(n),
{
}

/// The digits of a number start with no zero but that of zero itself.
pub proof fn law_digits_start_with_no_zero(n: nat)
    ensures
        n > 0 ==> digits_of(n)[0] != '0',
        digits_of(0) == seq!['0'],
    decreases n,
{
    if n >= 10 {
        law_digits_start_with_no_zero(n / 10);
        law_digits_read_back(n / 10);
        assert(digits_of(n)[0] == digits_of(n / 10)[0]);
    }
}

} // verus!
