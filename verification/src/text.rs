//! Text that the gateway shows: decimal numbers, joined messages and log lines.
use vstd::prelude::*;
use vstd::utf8::*;

verus! {

/// The character of one decimal digit.
pub open spec fn digit(d: nat) -> char
    recommends
        d < 10,
{
    (48 + d) as char
}

/// The decimal notation of `n`, without leading zeros.
pub open spec fn decimal(n: nat) -> Seq<char>
    decreases n,
{
    if n < 10 {
        seq![digit(n)]
    } else {
        decimal(n / 10).push(digit(n % 10))
    }
}

/// `text` without its newline characters, the others in their order.
pub open spec fn without_newlines(text: Seq<char>) -> Seq<char> {
    text.filter(|c: char| c != '\n')
}

/// What `String::from_utf8_lossy` makes of `bytes`.
pub uninterp spec fn utf8_lossy(bytes: Seq<u8>) -> Seq<char>;

/// `String::push` appends one character to the end of the string.
pub assume_specification[ String::push ](s: &mut String, ch: char)
    ensures
        final(s)@ == old(s)@.push(ch),
;

/// Calls `String::from_utf8_lossy`. Its result is named by [`utf8_lossy`]; of it
/// the contract says only that valid UTF-8 is decoded without a change. Where a
/// malformed stretch gets its replacement characters is left unsaid.
#[verifier::external_body]
pub(crate) fn from_utf8_lossy(bytes: &[u8]) -> (text: String)
    ensures
        text@ == utf8_lossy(bytes@),
        valid_utf8(bytes@) ==> text@ == decode_utf8(bytes@),
{
    String::from_utf8_lossy(bytes).into_owned()
}

fn digit_char(d: u32) -> (c: char)
    requires
        d < 10,
    ensures
        c == digit(d as nat),
{
    (48u8 + d as u8) as char
}

/// Writes `n` in decimal notation.
pub fn to_decimal(n: u32) -> (text: String)
    ensures
        text@ == decimal(n as nat),
    decreases n,
{
    if n < 10 {
        let mut text = String::new();
        text.push(digit_char(n));
        assert(text@ =~= decimal(n as nat));
        text
    } else {
        let mut text = to_decimal(n / 10);
        text.push(digit_char(n % 10));
        text
    }
}

/// Joins two pieces of text.
pub fn join(first: &str, second: &str) -> (text: String)
    ensures
        text@ == first@ + second@,
{
    let mut text = first.to_owned();
    text.append(second);
    text
}

/// Removes the newline characters of `text`.
pub fn strip_newlines(text: &str) -> (stripped: String)
    ensures
        stripped@ == without_newlines(text@),
{
    let mut stripped = String::new();
    proof {
        reveal(Seq::filter);
    }
    for c in it: text.chars()
        invariant
            it.seq() == text@,
            stripped@ == without_newlines(text@.take(it.index() as int)),
    {
        proof {
            reveal(Seq::filter);
            assert(text@.take(it.index() as int + 1).drop_last() =~= text@.take(it.index() as int));
        }
        if c != '\n' {
            stripped.push(c);
        }
    }
    assert(text@.take(text@.len() as int) =~= text@);
    stripped
}

/// The number that a sequence of decimal digits stands for.
pub open spec fn decimal_value(digits: Seq<char>) -> int
    decreases digits.len(),
{
    if digits.len() == 0 {
        0
    } else {
        10 * decimal_value(digits.drop_last()) + (digits.last() as int - 48)
    }
}

/// Reading the decimal notation of a number gives the number back.
pub proof fn decimal_reads_back(n: nat)
    ensures
        decimal_value(decimal(n)) == n,
    decreases n,
{
    reveal_with_fuel(decimal_value, 2);
    if n < 10 {
        assert(decimal(n).drop_last() =~= Seq::<char>::empty());
    } else {
        decimal_reads_back(n / 10);
        assert(decimal(n).drop_last() =~= decimal(n / 10));
    }
}

/// Two numbers with the same decimal notation are the same number.
pub proof fn decimal_is_injective(a: nat, b: nat)
    requires
        decimal(a) == decimal(b),
    ensures
        a == b,
{
    decimal_reads_back(a);
    decimal_reads_back(b);
}

proof fn lemma_nothing_to_strip(text: Seq<char>)
    requires
        !text.contains('\n'),
    ensures
        without_newlines(text) == text,
    decreases text.len(),
{
    reveal(Seq::filter);
    if text.len() > 0 {
        assert forall|i: int| 0 <= i < text.len() - 1 implies text.drop_last()[i] != '\n' by {
            assert(text.contains(text[i]));
        }
        lemma_nothing_to_strip(text.drop_last());
        assert(text.contains(text.last()));
        assert(text.drop_last().push(text.last()) =~= text);
    }
}

/// A stripped text holds no newline, and stripping it again changes nothing.
pub proof fn stripped_text_is_one_line(text: Seq<char>)
    ensures
        !without_newlines(text).contains('\n'),
        without_newlines(without_newlines(text)) == without_newlines(text),
{
    lemma_nothing_to_strip(without_newlines(text));
}

/// Numbers are written digit by digit: a number below ten as its digit, any other as the
/// number without its last digit, and then that digit.
pub proof fn decimals_grow_by_a_digit(n: u32, text: String, shorter: String)
    requires
        call_ensures(to_decimal, (n,), text),
        call_ensures(to_decimal, (n / 10,), shorter),
    ensures
        n < 10 ==> text@ == seq![(48 + n) as char],
        n >= 10 ==> text@ == shorter@.push((48 + n % 10) as char),
        forall|i: int| 0 <= i < text@.len() ==> '0' <= #[trigger] text@[i] <= '9',
{
    assert forall|i: int| 0 <= i < text@.len() implies '0' <= #[trigger] text@[i] <= '9' by {
        lemma_digits(n as nat, i);
    }
}

proof fn lemma_digits(n: nat, i: int)
    requires
        0 <= i < decimal(n).len(),
    ensures
        '0' <= decimal(n)[i] <= '9',
    decreases n,
{
    if n >= 10 && i < decimal(n / 10).len() {
        lemma_digits(n / 10, i);
    }
}

/// Joined text is the first piece, then the second, and nothing else.
pub proof fn joined_text_is_both_pieces(first: &str, second: &str, text: String)
    requires
        call_ensures(join, (first, second), text),
    ensures
        text@.len() == first@.len() + second@.len(),
        forall|i: int| 0 <= i < first@.len() ==> #[trigger] text@[i] == first@[i],
        forall|i: int| 0 <= i < second@.len() ==> text@[first@.len() + i] == #[trigger] second@[i],
{
}

/// Stripping a text of its newlines, character by character: of nothing it leaves
/// nothing, and one more character is left at the end exactly if it is no newline.
pub proof fn stripping_leaves_the_rest(
    text: &str,
    stripped: String,
    longer: &str,
    longer_stripped: String,
    c: char,
)
    requires
        call_ensures(strip_newlines, (text,), stripped),
        call_ensures(strip_newlines, (longer,), longer_stripped),
        longer@ == text@.push(c),
    ensures
        text@.len() == 0 ==> stripped@.len() == 0,
        longer_stripped@ == if c == '\n' {
            stripped@
        } else {
            stripped@.push(c)
        },
{
    reveal(Seq::filter);
    assert(longer@.drop_last() =~= text@);
}

} // verus!
