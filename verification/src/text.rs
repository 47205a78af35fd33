//! Numbers written out in decimal.
//!
//! File names and request URLs carry post ids in decimal. `decimal` says what
//! that text is, `push_decimal` writes it, and `lemma_decimal_injective` shows
//! that two numbers never share a text.

use vstd::prelude::*;
use vstd::string::*;

verus! {

/// `str`'s `==`, as std documents it: two string slices are equal exactly
/// when they hold the same characters.
pub assume_specification[ <str as PartialEq>::eq ](left: &str, right: &str) -> (same: bool)
    ensures
        same == (left@ == right@),
;

/// `String::push`, as std documents it: the character is added at the end.
pub assume_specification[ String::push ](text: &mut String, c: char)
    ensures
        final(text)@ == old(text)@.push(c),
;

/// Whether `c` is white space: whether it has Unicode's `White_Space`
/// property. These are the tab, the line feed, the vertical tab, the form
/// feed, the carriage return, the space, the next-line control, the
/// no-break space, the Ogham space mark, the spaces from the en quad to the
/// hair space, the line and paragraph separators, the narrow no-break
/// space, the medium mathematical space and the ideographic space.
pub open spec fn is_blank(c: char) -> bool {
    let code = c as u32;
    ||| 0x09 <= code <= 0x0d
    ||| code == 0x20
    ||| code == 0x85
    ||| code == 0xa0
    ||| code == 0x1680
    ||| 0x2000 <= code <= 0x200a
    ||| code == 0x2028
    ||| code == 0x2029
    ||| code == 0x202f
    ||| code == 0x205f
    ||| code == 0x3000
}

/// Whether `c` is white space.
pub fn blank(c: char) -> (answer: bool)
    ensures
        answer == is_blank(c),
{
    let code = c as u32;
    (0x09 <= code && code <= 0x0d) || code == 0x20 || code == 0x85 || code == 0xa0 || code
        == 0x1680 || (0x2000 <= code && code <= 0x200a) || code == 0x2028 || code == 0x2029
        || code == 0x202f || code == 0x205f || code == 0x3000
}

/// The character of the digit `d`.
pub open spec fn digit(d: nat) -> char
    recommends
        d < 10,
{
    if d == 0 {
        '0'
    } else if d == 1 {
        '1'
    } else if d == 2 {
        '2'
    } else if d == 3 {
        '3'
    } else if d == 4 {
        '4'
    } else if d == 5 {
        '5'
    } else if d == 6 {
        '6'
    } else if d == 7 {
        '7'
    } else if d == 8 {
        '8'
    } else {
        '9'
    }
}

/// Whether `c` is one of the ten digit characters.
pub open spec fn is_digit(c: char) -> bool {
    c == '0' || c == '1' || c == '2' || c == '3' || c == '4' || c == '5' || c == '6' || c == '7'
        || c == '8' || c == '9'
}

/// `n` in decimal, without leading zeros.
pub open spec fn decimal(n: nat) -> Seq<char>
    decreases n,
{
    if n < 10 {
        seq![digit(n)]
    } else {
        decimal(n / 10).push(digit(n % 10))
    }
}

/// `i` in decimal, with a minus sign in front where it is negative.
pub open spec fn signed_decimal(i: int) -> Seq<char> {
    if i < 0 {
        seq!['-'] + decimal((-i) as nat)
    } else {
        decimal(i as nat)
    }
}

/// A number's text is never empty and holds digits only.
pub proof fn lemma_decimal_digits(n: nat)
    ensures
        decimal(n).len() >= 1,
        n >= 10 ==> decimal(n).len() >= 2,
        forall|i: int| 0 <= i < decimal(n).len() ==> is_digit(#[trigger] decimal(n)[i]),
    decreases n,
{
    if n >= 10 {
        lemma_decimal_digits(n / 10);
    }
}

/// Two digits with the same character are the same digit.
pub proof fn lemma_digit_injective(a: nat, b: nat)
    requires
        a < 10,
        b < 10,
        digit(a) == digit(b),
    ensures
        a == b,
{
}

/// Two numbers with the same text are the same number.
pub proof fn lemma_decimal_injective(a: nat, b: nat)
    requires
        decimal(a) == decimal(b),
    ensures
        a == b,
    decreases a,
{
    lemma_decimal_digits(a);
    lemma_decimal_digits(b);
    if a < 10 && b < 10 {
        assert(decimal(a)[0] == digit(a));
        assert(decimal(b)[0] == digit(b));
        lemma_digit_injective(a, b);
    } else if a >= 10 && b >= 10 {
        let last = decimal(a).len() - 1;
        assert(decimal(a)[last] == digit(a % 10));
        assert(decimal(b)[last] == digit(b % 10));
        assert(decimal(a).drop_last() =~= decimal(a / 10));
        assert(decimal(b).drop_last() =~= decimal(b / 10));
        lemma_decimal_injective(a / 10, b / 10);
        lemma_digit_injective(a % 10, b % 10);
    }
}

/// A number's text that is followed by a character that is no digit ends
/// where that of another number does, if the two texts agree that far.
pub proof fn lemma_decimal_prefix(a: nat, b: nat, rest_a: Seq<char>, rest_b: Seq<char>)
    requires
        decimal(a) + rest_a == decimal(b) + rest_b,
        rest_a.len() > 0 && !is_digit(rest_a[0]),
        rest_b.len() > 0 && !is_digit(rest_b[0]),
    ensures
        a == b,
        rest_a == rest_b,
{
    lemma_decimal_digits(a);
    lemma_decimal_digits(b);
    let whole_a = decimal(a) + rest_a;
    let whole_b = decimal(b) + rest_b;
    let len_a = decimal(a).len() as int;
    let len_b = decimal(b).len() as int;
    if len_a < len_b {
        assert(whole_a[len_a] == rest_a[0]);
        assert(whole_b[len_a] == decimal(b)[len_a]);
    } else if len_b < len_a {
        assert(whole_b[len_b] == rest_b[0]);
        assert(whole_a[len_b] == decimal(a)[len_b]);
    }
    assert(decimal(a) =~= whole_a.subrange(0, len_a));
    assert(decimal(b) =~= whole_b.subrange(0, len_a));
    lemma_decimal_injective(a, b);
    assert(rest_a =~= whole_a.subrange(len_a, whole_a.len() as int));
    assert(rest_b =~= whole_b.subrange(len_a, whole_b.len() as int));
}

fn digit_text(d: u64) -> (text: &'static str)
    requires
        d < 10,
    ensures
        text@ == seq![digit(d as nat)],
{
    proof {
        reveal_strlit("0");
        reveal_strlit("1");
        reveal_strlit("2");
        reveal_strlit("3");
        reveal_strlit("4");
        reveal_strlit("5");
        reveal_strlit("6");
        reveal_strlit("7");
        reveal_strlit("8");
        reveal_strlit("9");
    }
    let text = if d == 0 {
        "0"
    } else if d == 1 {
        "1"
    } else if d == 2 {
        "2"
    } else if d == 3 {
        "3"
    } else if d == 4 {
        "4"
    } else if d == 5 {
        "5"
    } else if d == 6 {
        "6"
    } else if d == 7 {
        "7"
    } else if d == 8 {
        "8"
    } else {
        "9"
    };
    assert(text@ =~= seq![digit(d as nat)]);
    text
}

/// Writes `n` in decimal at the end of `out`.
pub fn push_decimal(out: &mut String, n: u64)
    ensures
        final(out)@ == old(out)@ + decimal(n as nat),
    decreases n,
{
    if n >= 10 {
        push_decimal(out, n / 10);
        out.append(digit_text(n % 10));
        assert(out@ =~= old(out)@ + decimal(n as nat));
    } else {
        out.append(digit_text(n));
    }
}

/// Writes `i` in decimal at the end of `out`, with its sign where it is
/// negative.
pub fn push_signed_decimal(out: &mut String, i: i64)
    ensures
        final(out)@ == old(out)@ + signed_decimal(i as int),
{
    if i < 0 {
        proof {
            reveal_strlit("-");
        }
        out.append("-");
        let magnitude: u64 = if i == i64::MIN {
            9223372036854775808u64
        } else {
            (-i) as u64
        };
        push_decimal(out, magnitude);
        assert(out@ =~= old(out)@ + signed_decimal(i as int)) by {
            assert("-"@ =~= seq!['-']);
        }
    } else {
        push_decimal(out, i as u64);
    }
}

/// A copy of `text`.
pub fn copy_text(text: &Option<String>) -> (copy: Option<String>)
    ensures
        copy == *text,
{
    match text {
        Some(t) => Some(t.clone()),
        None => None,
    }
}

/// A copy of `texts`, with the same strings in the same order.
pub fn copy_texts(texts: &Vec<String>) -> (copy: Vec<String>)
    ensures
        copy@ == texts@,
        copy.deep_view() == texts.deep_view(),
{
    let mut copy: Vec<String> = Vec::new();
    let mut i: usize = 0;
    while i < texts.len()
        invariant
            i <= texts.len(),
            copy@ == texts@.take(i as int),
        decreases texts.len() - i,
    {
        copy.push(texts[i].clone());
        assert(copy@ =~= texts@.take(i as int + 1));
        i += 1;
    }
    assert(texts@.take(texts.len() as int) =~= texts@);
    assert(copy.deep_view() =~= texts.deep_view());
    copy
}

/// `n` in decimal.
pub fn decimal_string(n: u64) -> (text: String)
    ensures
        text@ == decimal(n as nat),
{
    let mut text = String::new();
    push_decimal(&mut text, n);
    assert(text@ =~= decimal(n as nat));
    text
}

/// `text` without the white space at its start.
pub open spec fn trim_start(text: Seq<char>) -> Seq<char>
    decreases text.len(),
{
    if text.len() > 0 && is_blank(text[0]) {
        trim_start(text.skip(1))
    } else {
        text
    }
}

/// `text` without the white space at its end.
pub open spec fn trim_end(text: Seq<char>) -> Seq<char>
    decreases text.len(),
{
    if text.len() > 0 && is_blank(text.last()) {
        trim_end(text.drop_last())
    } else {
        text
    }
}

/// `text` without the white space at its start and at its end.
pub open spec fn trim(text: Seq<char>) -> Seq<char> {
    trim_end(trim_start(text))
}

/// Whether `text` holds white space only.
pub open spec fn all_blank(text: Seq<char>) -> bool {
    forall|i: int| 0 <= i < text.len() ==> is_blank(#[trigger] text[i])
}

/// What one more character does to a text without the white space at its
/// start: it is added, unless nothing but white space came so far and it is
/// white space too.
pub proof fn lemma_trim_start_push(text: Seq<char>, c: char)
    ensures
        trim_start(text.push(c)) == (if trim_start(text).len() > 0 {
            trim_start(text).push(c)
        } else if is_blank(c) {
            Seq::empty()
        } else {
            seq![c]
        }),
    decreases text.len(),
{
    if text.len() == 0 {
        assert(text.push(c) =~= seq![c]);
        assert(seq![c].skip(1) =~= Seq::<char>::empty());
        assert(trim_start(Seq::<char>::empty()) =~= Seq::<char>::empty());
    } else if is_blank(text[0]) {
        assert(text.push(c).skip(1) =~= text.skip(1).push(c));
        assert(text.push(c)[0] == text[0]);
        lemma_trim_start_push(text.skip(1), c);
    } else {
        assert(text.push(c)[0] == text[0]);
    }
}

/// White space at the end of a text does not count for what the text is
/// without it.
pub proof fn lemma_trim_end_blank_tail(text: Seq<char>, tail: Seq<char>)
    requires
        all_blank(tail),
    ensures
        trim_end(text + tail) == trim_end(text),
    decreases tail.len(),
{
    if tail.len() == 0 {
        assert(text + tail =~= text);
    } else {
        let whole = text + tail;
        assert(whole.last() == tail.last());
        assert(whole.drop_last() =~= text + tail.drop_last());
        lemma_trim_end_blank_tail(text, tail.drop_last());
    }
}

/// `text` without the white space at its start and at its end.
pub fn trimmed(text: &str) -> (out: String)
    ensures
        out@ == trim(text@),
{
    broadcast use vstd::string::group_string_axioms;

    let mut out = String::new();
    let mut pending = String::new();
    let mut started = false;
    for c in it: text.chars()
        invariant
            it.seq() == text@,
            started == (out@.len() > 0),
            trim_start(text@.take(it.index())) == out@ + pending@,
            all_blank(pending@),
            out@.len() == 0 ==> pending@.len() == 0,
            out@.len() > 0 ==> !is_blank(out@.last()),
    {
        proof {
            assert(text@.take(it.index() + 1) =~= text@.take(it.index()).push(c));
            lemma_trim_start_push(text@.take(it.index()), c);
        }
        let ghost before = out@ + pending@;
        if !blank(c) {
            out.append(pending.as_str());
            out.push(c);
            pending = String::new();
            started = true;
            assert(out@ + pending@ =~= before.push(c));
        } else if started {
            pending.push(c);
            assert(out@ + pending@ =~= before.push(c));
        } else {
            assert(out@ + pending@ =~= Seq::<char>::empty());
        }
    }
    proof {
        assert(text@.take(text@.len() as int) =~= text@);
        lemma_trim_end_blank_tail(out@, pending@);
    }
    out
}

} // verus!
