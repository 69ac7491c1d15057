use vstd::prelude::*;
use itertools::Itertools;

verus! {

/// What `truncate_ellipse` makes of `text` when cut to `len` grapheme clusters.
pub uninterp spec fn ellipsis_of(text: Seq<char>, len: usize) -> Seq<char>;

/// Relies on `ellipse::Ellipse::truncate_ellipse` for `&str`: keeps the first `len`
/// grapheme clusters of a longer text and appends "...". The result depends on the
/// text and `len` alone.
#[verifier::external_body]
fn truncate_ellipse(text: &str, len: usize) -> (r: String)
    ensures
        r@ == ellipsis_of(text@, len),
{
    ellipse::Ellipse::truncate_ellipse(&text, len).to_string()
}

pub open spec fn digit_char(d: nat) -> char {
    if d == 0 {
        '0'
    } else if d == 1 {
        '1'
    } else if d == 2 {
        '2'
    } else if d == 3 {
        '3'
    } else if d == 4 {
        '4'
    } else if d == 5 {
        '5'
    } else if d == 6 {
        '6'
    } else if d == 7 {
        '7'
    } else if d == 8 {
        '8'
    } else {
        '9'
    }
}

/// The decimal digits of `n`, most significant first, without leading zeros.
pub open spec fn decimal(n: nat) -> Seq<char>
    decreases n,
{
    if n < 10 {
        seq![digit_char(n)]
    } else {
        decimal(n / 10).push(digit_char(n % 10))
    }
}

/// `n` written in decimal, with a leading '-' when negative.
pub open spec fn signed_decimal(n: int) -> Seq<char> {
    if n < 0 {
        seq!['-'] + decimal((-n) as nat)
    } else {
        decimal(n as nat)
    }
}

/// The one-character string of digit `d`.
fn digit_text(d: u64) -> (r: &'static str)
    requires
        d < 10,
    ensures
        r@ == seq![digit_char(d as nat)],
{
    proof {
        reveal_strlit("0");
        reveal_strlit("1");
        reveal_strlit("2");
        reveal_strlit("3");
        reveal_strlit("4");
        reveal_strlit("5");
        reveal_strlit("6");
        reveal_strlit("7");
        reveal_strlit("8");
        reveal_strlit("9");
    }
    if d == 0 {
        "0"
    } else if d == 1 {
        "1"
    } else if d == 2 {
        "2"
    } else if d == 3 {
        "3"
    } else if d == 4 {
        "4"
    } else if d == 5 {
        "5"
    } else if d == 6 {
        "6"
    } else if d == 7 {
        "7"
    } else if d == 8 {
        "8"
    } else {
        "9"
    }
}

/// `n` written in decimal.
pub fn decimal_text(n: u64) -> (r: String)
    ensures
        r@ == decimal(n as nat),
    decreases n,
{
    if n < 10 {
        String::from_str(digit_text(n))
    } else {
        let mut r = decimal_text(n / 10);
        r.append(digit_text(n % 10));
        r
    }
}

/// `n` written in decimal, with a leading '-' when negative.
pub fn integer_text(n: i64) -> (r: String)
    ensures
        r@ == signed_decimal(n as int),
{
    if n < 0 {
        proof {
            reveal_strlit("-");
        }
        let magnitude: u64 = if n == i64::MIN {
            9223372036854775808
        } else {
            (-n) as u64
        };
        let mut r = String::from_str("-");
        r.append(decimal_text(magnitude).as_str());
        r
    } else {
        decimal_text(n as u64)
    }
}

pub open spec fn ascending(s: Seq<u32>) -> bool {
    forall|i: int, j: int| 0 <= i < j < s.len() ==> s[i] <= s[j]
}

/// Relies on `itertools::Itertools::sorted`: the same IDs in ascending order.
#[verifier::external_body]
pub(crate) fn sorted_ids(ids: Vec<u32>) -> (r: Vec<u32>)
    ensures
        r@.to_multiset() == ids@.to_multiset(),
        ascending(r@),
{
    ids.into_iter().sorted().collect()
}

/// `n` copies of `c`.
pub open spec fn repeated(c: char, n: nat) -> Seq<char> {
    Seq::new(n, |i: int| c)
}

/// A cell of a fixed-width column: dots when the column is too narrow to show
/// anything, the text padded with spaces when it fits, else the text cut short
/// with an ellipsis.
pub open spec fn column(text: Seq<char>, width: usize) -> Seq<char> {
    if width <= 3 {
        repeated('.', width as nat)
    } else if text.len() <= width {
        text + repeated(' ', (width - text.len()) as nat)
    } else {
        ellipsis_of(text, (width - 3) as usize)
    }
}

/// Appends `n` copies of the one-character string `unit` to `s`.
fn append_repeated(s: &mut String, unit: &str, n: usize)
    requires
        unit@.len() == 1,
    ensures
        final(s)@ == old(s)@ + repeated(unit@[0], n as nat),
{
    let mut i: usize = 0;
    while i < n
        invariant
            i <= n,
            unit@.len() == 1,
            s@ == old(s)@ + repeated(unit@[0], i as nat),
        decreases n - i,
    {
        s.append(unit);
        i = i + 1;
        assert(s@ =~= old(s)@ + repeated(unit@[0], i as nat));
    }
}

/// Formats `text` as a cell of a column `width` characters wide.
pub fn get_column_string(text: &str, width: usize) -> (r: String)
    ensures
        r@ == column(text@, width),
{
    proof {
        reveal_strlit(".");
        reveal_strlit(" ");
    }
    if width <= 3 {
        let mut r = String::new();
        append_repeated(&mut r, ".", width);
        assert(r@ =~= column(text@, width));
        return r;
    }
    let len = text.unicode_len();
    if len <= width {
        let mut r = String::from_str(text);
        append_repeated(&mut r, " ", width - len);
        return r;
    }
    truncate_ellipse(text, width - 3)
}

} // verus!
