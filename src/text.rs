//! Plain text building blocks: joining words with spaces and writing
//! integers in decimal.
use vstd::prelude::*;

verus! {

/// The views of a sequence of strings.
pub open spec fn views(words: Seq<String>) -> Seq<Seq<char>> {
    words.map_values(|w: String| w@)
}

/// The words one after another, with a single space between neighbours.
pub open spec fn join_spaces(words: Seq<Seq<char>>) -> Seq<char>
    decreases words.len(),
{
    if words.len() == 0 {
        Seq::empty()
    } else if words.len() == 1 {
        words[0]
    } else {
        join_spaces(words.drop_last()) + seq![' '] + words.last()
    }
}

/// Joins the words with single spaces.
pub fn join_words(words: &Vec<String>) -> (r: String)
    ensures
        r@ == join_spaces(views(words@)),
{
    let n = words.len();
    if n == 0 {
        return String::new();
    }
    let mut acc = words[0].clone();
    proof {
        reveal_strlit(" ");
        assert(views(words@).take(1) =~= seq![words@[0]@]);
    }
    let mut i: usize = 1;
    while i < n
        invariant
            1 <= i <= n,
            n == words@.len(),
            acc@ == join_spaces(views(words@).take(i as int)),
            " "@ == seq![' '],
        decreases n - i,
    {
        acc.append(" ");
        acc.append(words[i].as_str());
        proof {
            let w = views(words@);
            assert(w.take(i + 1).drop_last() =~= w.take(i as int));
        }
        i = i + 1;
    }
    proof {
        assert(views(words@).take(n as int) =~= views(words@));
    }
    acc
}

/// The character of a decimal digit.
pub open spec fn digit_char(d: nat) -> char {
    if d == 0 {
        '0'
    } else if d == 1 {
        '1'
    } else if d == 2 {
        '2'
    } else if d == 3 {
        '3'
    } else if d == 4 {
        '4'
    } else if d == 5 {
        '5'
    } else if d == 6 {
        '6'
    } else if d == 7 {
        '7'
    } else if d == 8 {
        '8'
    } else {
        '9'
    }
}

/// The decimal digits of a natural number, most significant first, without
/// leading zeros.
pub open spec fn digits(n: nat) -> Seq<char>
    decreases n,
{
    if n < 10 {
        seq![digit_char(n)]
    } else {
        digits(n / 10) + seq![digit_char(n % 10)]
    }
}

/// An integer in decimal, with a leading minus sign when it is negative.
pub open spec fn decimal(n: int) -> Seq<char> {
    if n < 0 {
        seq!['-'] + digits((-n) as nat)
    } else {
        digits(n as nat)
    }
}

fn digit_str(d: u64) -> (r: &'static str)
    requires
        d < 10,
    ensures
        r@ == seq![digit_char(d as nat)],
{
    proof {
        reveal_strlit("0");
        reveal_strlit("1");
        reveal_strlit("2");
        reveal_strlit("3");
        reveal_strlit("4");
        reveal_strlit("5");
        reveal_strlit("6");
        reveal_strlit("7");
        reveal_strlit("8");
        reveal_strlit("9");
    }
    if d == 0 {
        "0"
    } else if d == 1 {
        "1"
    } else if d == 2 {
        "2"
    } else if d == 3 {
        "3"
    } else if d == 4 {
        "4"
    } else if d == 5 {
        "5"
    } else if d == 6 {
        "6"
    } else if d == 7 {
        "7"
    } else if d == 8 {
        "8"
    } else {
        "9"
    }
}

fn append_digits(out: &mut String, n: u64)
    ensures
        final(out)@ == old(out)@ + digits(n as nat),
    decreases n,
{
    if n < 10 {
        out.append(digit_str(n));
    } else {
        append_digits(out, n / 10);
        out.append(digit_str(n % 10));
    }
}

/// Writes the integer in decimal.
pub fn decimal_string(n: i32) -> (r: String)
    ensures
        r@ == decimal(n as int),
{
    let mut out = String::new();
    if n < 0 {
        proof {
            reveal_strlit("-");
        }
        out.append("-");
        let m: i64 = -(n as i64);
        append_digits(&mut out, m as u64);
    } else {
        append_digits(&mut out, n as u64);
    }
    out
}

/// The text that `String::from_utf8_lossy` makes of the bytes.
pub uninterp spec fn utf8_lossy(bytes: Seq<u8>) -> Seq<char>;

/// Relies on `String::from_utf8_lossy`: decodes UTF-8, putting U+FFFD in
/// place of each invalid sequence; the text depends on the bytes alone.
#[verifier::external_body]
pub(crate) fn decode_lossy(bytes: &[u8]) -> (r: String)
    ensures
        r@ == utf8_lossy(bytes@),
{
    String::from_utf8_lossy(bytes).into_owned()
}

} // verus!
