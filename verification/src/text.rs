//! Text operations, each stated over sequences of characters.

use vstd::prelude::*;

verus! {

/// Whether `pattern` stands in `text` from position `at` on.
pub open spec fn occurs_at(pattern: Seq<char>, text: Seq<char>, at: int) -> bool {
    &&& 0 <= at
    &&& at + pattern.len() <= text.len()
    &&& text.subrange(at, at + pattern.len()) == pattern
}

/// Whether `pattern` stands anywhere in `text`.
pub open spec fn occurs(pattern: Seq<char>, text: Seq<char>) -> bool {
    exists|at: int| occurs_at(pattern, text, at)
}

/// The parts in order, with `separator` between each two neighbours.
pub open spec fn joined(parts: Seq<Seq<char>>, separator: Seq<char>) -> Seq<char>
    decreases parts.len(),
{
    if parts.len() == 0 {
        Seq::empty()
    } else if parts.len() == 1 {
        parts[0]
    } else {
        joined(parts.drop_last(), separator) + separator + parts.last()
    }
}

/// The character that stands for `d` in decimal notation.
pub open spec fn digit(d: nat) -> char
    recommends
        d < 10,
{
    (48 + d) as char
}

/// The decimal notation of `n`: most significant digit first, no leading zero.
pub open spec fn decimal(n: nat) -> Seq<char>
    decreases n,
{
    if n < 10 {
        seq![digit(n)]
    } else {
        decimal(n / 10).push(digit(n % 10))
    }
}

/// The views of a list of strings.
pub open spec fn views(parts: Seq<String>) -> Seq<Seq<char>> {
    parts.map_values(|part: String| part@)
}

/// The characters of `text`, in order.
pub fn characters(text: &str) -> (result: Vec<char>)
    ensures
        result@ == text@,
{
    let mut result: Vec<char> = Vec::new();
    for c in walk: text.chars()
        invariant
            result@ == text@.take(walk.index()),
            walk.seq() == text@,
    {
        result.push(c);
    }
    assert(text@.take(text@.len() as int) == text@);
    result
}

/// Whether the two texts hold the same characters.
pub fn same(left: &str, right: &str) -> (result: bool)
    ensures
        result == (left@ == right@),
{
    let left_chars = characters(left);
    let right_chars = characters(right);
    assert(right@.subrange(0, right@.len() as int) == right@);
    left_chars.len() == right_chars.len() && matches_at(&left_chars, &right_chars, 0)
}

/// Whether `pattern` stands in `text` from position `at` on.
fn matches_at(pattern: &Vec<char>, text: &Vec<char>, at: usize) -> (result: bool)
    requires
        at + pattern@.len() <= text@.len(),
    ensures
        result == occurs_at(pattern@, text@, at as int),
{
    let ghost window = text@.subrange(at as int, at + pattern@.len());
    let length: usize = text.len();
    for i in 0..pattern.len()
        invariant
            at + pattern@.len() <= length,
            length == text@.len(),
            window == text@.subrange(at as int, at + pattern@.len()),
            forall|j: int| 0 <= j < i ==> #[trigger] pattern@[j] == text@[at + j],
    {
        if pattern[i] != text[at + i] {
            assert(window[i as int] != pattern@[i as int]);
            return false;
        }
    }
    assert(window =~= pattern@);
    true
}

/// Whether `text` begins with `prefix`.
pub fn starts_with(text: &str, prefix: &str) -> (result: bool)
    ensures
        result == prefix@.is_prefix_of(text@),
{
    let text_chars = characters(text);
    let prefix_chars = characters(prefix);
    prefix_chars.len() <= text_chars.len() && matches_at(&prefix_chars, &text_chars, 0)
}

/// Whether `pattern` stands anywhere in `text`.
pub fn contains(text: &str, pattern: &str) -> (result: bool)
    ensures
        result == occurs(pattern@, text@),
{
    let text_chars = characters(text);
    let pattern_chars = characters(pattern);
    if pattern_chars.len() == 0 {
        assert(text@.subrange(0, 0) == pattern@);
        assert(occurs_at(pattern@, text@, 0));
        return true;
    }
    for at in 0..text_chars.len()
        invariant
            text_chars@ == text@,
            pattern_chars@ == pattern@,
            forall|i: int| 0 <= i < at ==> !occurs_at(pattern@, text@, i),
    {
        if pattern_chars.len() <= text_chars.len() - at && matches_at(
            &pattern_chars,
            &text_chars,
            at,
        ) {
            return true;
        }
    }
    false
}

/// The parts in order, with `separator` between each two neighbours.
pub fn join(parts: &Vec<String>, separator: &str) -> (result: String)
    ensures
        result@ == joined(views(parts@), separator@),
{
    let ghost all = views(parts@);
    let mut result = String::new();
    for i in 0..parts.len()
        invariant
            all == views(parts@),
            result@ == joined(all.take(i as int), separator@),
    {
        assert(all.take(i + 1).drop_last() == all.take(i as int));
        if i > 0 {
            result.append(separator);
        }
        result.append(parts[i].as_str());
    }
    assert(all.take(all.len() as int) == all);
    result
}

/// The text of one decimal digit.
fn digit_text(d: u32) -> (result: &'static str)
    requires
        d < 10,
    ensures
        result@ == seq![digit(d as nat)],
{
    proof {
        reveal_strlit("0");
        reveal_strlit("1");
        reveal_strlit("2");
        reveal_strlit("3");
        reveal_strlit("4");
        reveal_strlit("5");
        reveal_strlit("6");
        reveal_strlit("7");
        reveal_strlit("8");
        reveal_strlit("9");
    }
    match d {
        0 => "0",
        1 => "1",
        2 => "2",
        3 => "3",
        4 => "4",
        5 => "5",
        6 => "6",
        7 => "7",
        8 => "8",
        _ => "9",
    }
}

/// Appends the decimal notation of `n` to `out`.
pub fn append_decimal(out: &mut String, n: u32)
    ensures
        final(out)@ == old(out)@ + decimal(n as nat),
    decreases n,
{
    if n >= 10 {
        append_decimal(out, n / 10);
    }
    out.append(digit_text(n % 10));
}

/// Decimal notation is made of digits alone.
pub proof fn lemma_decimal_digits(n: nat)
    ensures
        decimal(n).len() > 0,
        forall|i: int| 0 <= i < decimal(n).len() ==> '0' <= #[trigger] decimal(n)[i] <= '9',
    decreases n,
{
    if n >= 10 {
        lemma_decimal_digits(n / 10);
    }
}

/// Different numbers have different decimal notations.
pub proof fn lemma_decimal_injective(m: nat, n: nat)
    requires
        decimal(m) == decimal(n),
    ensures
        m == n,
    decreases m,
{
    lemma_decimal_digits(m / 10);
    lemma_decimal_digits(n / 10);
    assert(decimal(m).last() == digit(m % 10));
    assert(decimal(n).last() == digit(n % 10));
    if m >= 10 && n >= 10 {
        assert(decimal(m).drop_last() == decimal(m / 10));
        assert(decimal(n).drop_last() == decimal(n / 10));
        lemma_decimal_injective(m / 10, n / 10);
    }
}

/// A pattern stands in a text exactly if the text is the pattern with something before and
/// something after it.
pub proof fn occurrence_splits_the_text(pattern: Seq<char>, text: Seq<char>)
    ensures
        occurs(pattern, text) <==> (exists|before: Seq<char>, after: Seq<char>|
            #[trigger] (before + pattern + after) == text),
{
    if occurs(pattern, text) {
        let at = choose|at: int| occurs_at(pattern, text, at);
        let before = text.take(at);
        let after = text.skip(at + pattern.len());
        assert(text == before + text.subrange(at, at + pattern.len()) + after);
        assert(before + pattern + after == text);
    }
    if exists|before: Seq<char>, after: Seq<char>| #[trigger] (before + pattern + after) == text {
        let (before, after) = choose|before: Seq<char>, after: Seq<char>|
            #[trigger] (before + pattern + after) == text;
        let at = before.len() as int;
        assert(text.subrange(at, at + pattern.len()) == pattern);
        assert(occurs_at(pattern, text, at));
    }
}

/// Joined lists are the lists joined, with the separator between them; one part is itself.
pub proof fn joining_is_piecewise(
    left: Seq<Seq<char>>,
    right: Seq<Seq<char>>,
    part: Seq<char>,
    separator: Seq<char>,
)
    ensures
        joined(Seq::<Seq<char>>::empty(), separator) == Seq::<char>::empty(),
        joined(seq![part], separator) == part,
        left.len() > 0 && right.len() > 0 ==> joined(left + right, separator) == joined(
            left,
            separator,
        ) + separator + joined(right, separator),
    decreases right.len(),
{
    if left.len() > 0 && right.len() > 0 {
        assert((left + right).drop_last() == left + right.drop_last());
        assert((left + right).last() == right.last());
        if right.len() == 1 {
            assert(left + right.drop_last() == left);
        } else {
            joining_is_piecewise(left, right.drop_last(), part, separator);
        }
    }
}

/// The number that a row of decimal digits stands for.
pub open spec fn value_of(digits: Seq<char>) -> int
    decreases digits.len(),
{
    if digits.len() == 0 {
        0
    } else {
        value_of(digits.drop_last()) * 10 + (digits.last() as int - '0' as int)
    }
}

/// Decimal notation stands for its number, in digits alone and without a leading zero.
pub proof fn decimal_stands_for_its_number(n: nat)
    ensures
        value_of(decimal(n)) == n,
        forall|i: int| 0 <= i < decimal(n).len() ==> '0' <= #[trigger] decimal(n)[i] <= '9',
        decimal(n).len() >= 1,
        decimal(n).len() > 1 ==> decimal(n)[0] != '0',
    decreases n,
{
    lemma_decimal_digits(n);
    if n < 10 {
        reveal_with_fuel(value_of, 2);
        assert(decimal(n).drop_last() == Seq::<char>::empty());
    } else {
        decimal_stands_for_its_number(n / 10);
        assert(decimal(n).drop_last() == decimal(n / 10));
        if n / 10 < 10 {
            assert(decimal(n)[0] == digit(n / 10));
        } else {
            lemma_decimal_digits(n / 10 / 10);
            assert(decimal(n / 10).len() > 1);
        }
    }
}

/// The views of a list of strings are the texts of the strings, one for one.
pub proof fn views_are_the_texts(parts: Seq<String>)
    ensures
        views(parts).len() == parts.len(),
        forall|i: int| 0 <= i < parts.len() ==> #[trigger] views(parts)[i] == parts[i]@,
{
}

} // verus!
