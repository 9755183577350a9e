//! Answers that carry floating-point numbers, built as pieces: text, and
//! numbers to be written in a given way. The library decides every piece;
//! the caller writes the numbers, which needs floating point.
use vstd::prelude::*;
use crate::json::{get, JsonNumber, JsonValue};
use crate::text::copy_str;

verus! {

/// A JSON number as a plain value.
pub enum NumView {
    PosInt(u64),
    NegInt(i64),
    Float(Seq<char>),
}

/// The plain value of a JSON number.
pub open spec fn num_view(n: JsonNumber) -> NumView {
    match n {
        JsonNumber::PosInt(u) => NumView::PosInt(u),
        JsonNumber::NegInt(i) => NumView::NegInt(i),
        JsonNumber::Float(t) => NumView::Float(t@),
    }
}

/// A piece of an answer.
pub enum Piece {
    Text(String),
    /// The number (zero when there is none) with this many decimals.
    Number(Option<JsonNumber>, u8),
    /// The integer divided by a thousand, with one decimal.
    Thousandths(u64),
    /// The number (zero when there is none) times a hundred, with no
    /// decimals.
    Percent(Option<JsonNumber>),
    /// The largest of the numbers (the least `f64` when there are none),
    /// with one decimal.
    Highest(Vec<JsonNumber>),
    /// The smallest of the numbers (the greatest `f64` when there are
    /// none), with one decimal.
    Lowest(Vec<JsonNumber>),
    /// The largest of zero and the numbers, times a hundred, with no
    /// decimals.
    HighestPercent(Vec<JsonNumber>),
}

/// A piece as plain values.
pub enum PieceView {
    Text(Seq<char>),
    Number(Option<NumView>, u8),
    Thousandths(u64),
    Percent(Option<NumView>),
    Highest(Seq<NumView>),
    Lowest(Seq<NumView>),
    HighestPercent(Seq<NumView>),
}

/// The plain values of numbers.
pub open spec fn nums_view(ns: Seq<JsonNumber>) -> Seq<NumView> {
    ns.map_values(|n: JsonNumber| num_view(n))
}

/// An optional number as a plain value.
pub open spec fn opt_num_view(n: Option<JsonNumber>) -> Option<NumView> {
    match n {
        Some(x) => Some(num_view(x)),
        None => None,
    }
}

/// The plain value of a piece.
pub open spec fn piece_view(p: Piece) -> PieceView {
    match p {
        Piece::Text(s) => PieceView::Text(s@),
        Piece::Number(n, d) => PieceView::Number(opt_num_view(n), d),
        Piece::Thousandths(v) => PieceView::Thousandths(v),
        Piece::Percent(n) => PieceView::Percent(opt_num_view(n)),
        Piece::Highest(ns) => PieceView::Highest(nums_view(ns@)),
        Piece::Lowest(ns) => PieceView::Lowest(nums_view(ns@)),
        Piece::HighestPercent(ns) => PieceView::HighestPercent(nums_view(ns@)),
    }
}

/// The plain values of pieces.
pub open spec fn pieces_view(ps: Seq<Piece>) -> Seq<PieceView> {
    ps.map_values(|p: Piece| piece_view(p))
}

/// The number `v` holds, when it is one.
pub open spec fn num_of(v: Option<JsonValue>) -> Option<NumView> {
    match v {
        Some(JsonValue::Number(n)) => Some(num_view(n)),
        _ => None,
    }
}

/// The number at `key`, when the value there is a number.
pub open spec fn num_at(v: JsonValue, key: Seq<char>) -> Option<NumView> {
    num_of(get(v, key))
}

/// A copy of a number.
pub fn copy_number(n: &JsonNumber) -> (r: JsonNumber)
    ensures
        num_view(r) == num_view(*n),
{
    match n {
        JsonNumber::PosInt(u) => JsonNumber::PosInt(*u),
        JsonNumber::NegInt(i) => JsonNumber::NegInt(*i),
        JsonNumber::Float(t) => JsonNumber::Float(copy_str(t.as_str())),
    }
}

/// A copy of the number `v` holds, when it is one.
pub fn number_of(v: Option<&JsonValue>) -> (r: Option<JsonNumber>)
    ensures
        opt_num_view(r) == num_of(
            match v {
                Some(x) => Some(*x),
                None => None,
            },
        ),
{
    match v {
        Some(JsonValue::Number(n)) => Some(copy_number(n)),
        _ => None,
    }
}

/// A copy of the number at `key`, when the value there is one.
pub fn number_at(v: &JsonValue, key: &str) -> (r: Option<JsonNumber>)
    ensures
        opt_num_view(r) == num_at(*v, key@),
{
    number_of(v.get(key))
}

/// A text piece.
pub fn text_piece(s: String) -> (p: Piece)
    ensures
        piece_view(p) == PieceView::Text(s@),
{
    Piece::Text(s)
}

} // verus!
