//! Rendering: integers in decimal, booleans as words, and the pieces that a
//! rendered value is made of. A real is not rendered here: it stands in the
//! pieces as the bits of its number, between the text around it.

use vstd::prelude::*;

verus! {

/// One piece of a rendered value.
#[derive(Debug, PartialEq, Eq)]
pub enum Piece {
    /// Text, as it stands.
    Text(String),
    /// A 32-bit real, by the bits of its number.
    Single(u32),
    /// A 64-bit real, by the bits of its number.
    Double(u64),
}

/// What a `Piece` holds.
pub enum PieceView {
    Text(Seq<char>),
    Single(u32),
    Double(u64),
}

impl View for Piece {
    type V = PieceView;

    open spec fn view(&self) -> PieceView {
        match *self {
            Piece::Text(s) => PieceView::Text(s@),
            Piece::Single(b) => PieceView::Single(b),
            Piece::Double(b) => PieceView::Double(b),
        }
    }
}

impl Clone for Piece {
    fn clone(&self) -> (p: Piece)
        ensures
            p@ == self@,
    {
        match self {
            Piece::Text(s) => Piece::Text(s.clone()),
            Piece::Single(b) => Piece::Single(*b),
            Piece::Double(b) => Piece::Double(*b),
        }
    }
}

/// The views of a run of pieces.
pub open spec fn piece_views(pieces: Seq<Piece>) -> Seq<PieceView> {
    pieces.map_values(|p: Piece| p@)
}

/// The character of a decimal digit.
pub open spec fn digit(d: nat) -> char {
    if d == 0 {
        '0'
    } else if d == 1 {
        '1'
    } else if d == 2 {
        '2'
    } else if d == 3 {
        '3'
    } else if d == 4 {
        '4'
    } else if d == 5 {
        '5'
    } else if d == 6 {
        '6'
    } else if d == 7 {
        '7'
    } else if d == 8 {
        '8'
    } else {
        '9'
    }
}

/// A natural number in decimal, without leading zeros.
pub open spec fn decimal(n: nat) -> Seq<char>
    decreases n,
{
    if n < 10 {
        seq![digit(n)]
    } else {
        decimal(n / 10).push(digit(n % 10))
    }
}

/// The number that a decimal digit stands for.
pub open spec fn digit_value(c: char) -> nat {
    if c == '1' {
        1
    } else if c == '2' {
        2
    } else if c == '3' {
        3
    } else if c == '4' {
        4
    } else if c == '5' {
        5
    } else if c == '6' {
        6
    } else if c == '7' {
        7
    } else if c == '8' {
        8
    } else if c == '9' {
        9
    } else {
        0
    }
}

/// The number that a run of decimal digits stands for.
pub open spec fn number(digits: Seq<char>) -> nat
    decreases digits.len(),
{
    if digits.len() == 0 {
        0
    } else {
        number(digits.drop_last()) * 10 + digit_value(digits.last())
    }
}

/// A number is read back from its decimal digits, of which there is at least
/// one, and the first of which is no zero unless the number is zero.
pub proof fn lemma_decimal_reads_back(n: nat)
    ensures
        number(decimal(n)) == n,
        decimal(n).len() >= 1,
        n > 0 ==> decimal(n)[0] != '0',
    decreases n,
{
    if n < 10 {
        assert(decimal(n).drop_last() =~= Seq::<char>::empty());
        assert(number(decimal(n)) == number(decimal(n).drop_last()) * 10 + digit_value(
            decimal(n).last(),
        ));
    } else {
        lemma_decimal_reads_back(n / 10);
        assert(decimal(n).drop_last() =~= decimal(n / 10));
        assert(number(decimal(n)) == number(decimal(n).drop_last()) * 10 + digit_value(
            decimal(n).last(),
        ));
    }
}

/// An integer in decimal, with a minus sign where it is negative.
pub open spec fn signed_decimal(v: int) -> Seq<char> {
    if v < 0 {
        seq!['-'] + decimal((-v) as nat)
    } else {
        decimal(v as nat)
    }
}

/// A boolean as a word.
pub open spec fn bool_text(b: bool) -> Seq<char> {
    if b {
        "true"@
    } else {
        "false"@
    }
}

/// The items with a comma and a space between each two.
pub open spec fn joined(items: Seq<PieceView>) -> Seq<PieceView>
    decreases items.len(),
{
    if items.len() == 0 {
        Seq::empty()
    } else if items.len() == 1 {
        seq![items[0]]
    } else {
        joined(items.drop_last()).push(PieceView::Text(", "@)).push(items.last())
    }
}

/// The items as a list in square brackets.
pub open spec fn bracketed(items: Seq<PieceView>) -> Seq<PieceView> {
    seq![PieceView::Text("["@)] + joined(items) + seq![PieceView::Text("]"@)]
}

/// The pieces between an opening text and a closing bracket.
pub open spec fn wrapped(open: Seq<char>, inner: Seq<PieceView>) -> Seq<PieceView> {
    seq![PieceView::Text(open)] + inner + seq![PieceView::Text(")"@)]
}

/// The text of one decimal digit.
fn digit_str(d: u64) -> (s: &'static str)
    requires
        d < 10,
    ensures
        s@ == seq![digit(d as nat)],
{
    proof {
        reveal_strlit("0");
        reveal_strlit("1");
        reveal_strlit("2");
        reveal_strlit("3");
        reveal_strlit("4");
        reveal_strlit("5");
        reveal_strlit("6");
        reveal_strlit("7");
        reveal_strlit("8");
        reveal_strlit("9");
    }
    let s = if d == 0 {
        "0"
    } else if d == 1 {
        "1"
    } else if d == 2 {
        "2"
    } else if d == 3 {
        "3"
    } else if d == 4 {
        "4"
    } else if d == 5 {
        "5"
    } else if d == 6 {
        "6"
    } else if d == 7 {
        "7"
    } else if d == 8 {
        "8"
    } else {
        "9"
    };
    s
}

/// Appends a natural number in decimal.
fn push_decimal(out: &mut String, n: u64)
    ensures
        final(out)@ == old(out)@ + decimal(n as nat),
    decreases n,
{
    if n >= 10 {
        push_decimal(out, n / 10);
    }
    out.append(digit_str(n % 10));
    proof {
        if n >= 10 {
            assert(old(out)@ + decimal((n / 10) as nat) + seq![digit((n % 10) as nat)] =~= old(
                out,
            )@ + decimal(n as nat));
        }
    }
}

/// An unsigned integer in decimal.
pub fn unsigned_text(n: u64) -> (s: String)
    ensures
        s@ == decimal(n as nat),
{
    let mut out = String::new();
    push_decimal(&mut out, n);
    out
}

/// A signed integer in decimal.
pub fn signed_text(v: i64) -> (s: String)
    ensures
        s@ == signed_decimal(v as int),
{
    let mut out = String::new();
    if v < 0 {
        proof {
            reveal_strlit("-");
        }
        out.append("-");
        push_decimal(&mut out, (-(v as i128)) as u64);
    } else {
        push_decimal(&mut out, v as u64);
    }
    out
}

/// A boolean as a word.
pub fn bool_word_text(b: bool) -> (s: String)
    ensures
        s@ == bool_text(b),
{
    if b {
        String::from_str("true")
    } else {
        String::from_str("false")
    }
}

/// A piece of text.
pub fn text_piece(s: &str) -> (p: Piece)
    ensures
        p@ == PieceView::Text(s@),
{
    Piece::Text(String::from_str(s))
}

/// The items as a list in square brackets.
pub fn bracket(items: &Vec<Piece>) -> (out: Vec<Piece>)
    ensures
        piece_views(out@) == bracketed(piece_views(items@)),
{
    let ghost all = piece_views(items@);
    let mut out: Vec<Piece> = Vec::new();
    out.push(text_piece("["));
    let mut i: usize = 0;
    while i < items.len()
        invariant
            i <= items.len(),
            all == piece_views(items@),
            piece_views(out@) == seq![PieceView::Text("["@)] + joined(all.take(i as int)),
        decreases items.len() - i,
    {
        let ghost shown = piece_views(out@);
        if i > 0 {
            out.push(text_piece(", "));
        }
        out.push(items[i].clone());
        proof {
            assert(all.take(i + 1).drop_last() =~= all.take(i as int));
            if i > 0 {
                assert(piece_views(out@) =~= shown.push(PieceView::Text(", "@)).push(
                    all[i as int],
                ));
            }
        }
        i += 1;
    }
    out.push(text_piece("]"));
    assert(all.take(items.len() as int) =~= all);
    out
}

/// The pieces between an opening text and a closing bracket.
pub fn wrap(open: &str, inner: Vec<Piece>) -> (out: Vec<Piece>)
    ensures
        piece_views(out@) == wrapped(open@, piece_views(inner@)),
{
    let mut out: Vec<Piece> = Vec::new();
    out.push(text_piece(open));
    let mut inner = inner;
    out.append(&mut inner);
    out.push(text_piece(")"));
    out
}

} // verus!
