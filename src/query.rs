//! The query side of a request: how parameters are submitted and how each
//! stored value becomes a cell of a result row.

use vstd::prelude::*;
use vstd::string::*;

verus! {

/// Some pair carries a non-empty marker.
pub open spec fn uses_named(params: Seq<(String, String)>) -> bool {
    exists|i: int| 0 <= i < params.len() && (#[trigger] params[i]).0@.len() > 0
}

/// Whether the parameters are submitted by name: as soon as one pair has a
/// marker, all are; otherwise all are submitted by position, in order.
pub fn has_named_params(params: &[(String, String)]) -> (r: bool)
    ensures
        r == uses_named(params@),
{
    let mut i: usize = 0;
    while i < params.len()
        invariant
            i <= params@.len(),
            forall|k: int| 0 <= k < i ==> (#[trigger] params@[k]).0@.len() == 0,
        decreases params@.len() - i,
    {
        if params[i].0.as_str().unicode_len() > 0 {
            return true;
        }
        i += 1;
    }
    false
}

/// A value as the store hands it out; a real is given by its IEEE-754 bits.
#[derive(Debug, Clone, PartialEq, Eq)]
pub enum SqlValue {
    Null,
    Integer(i64),
    Real(u64),
    Text(Vec<u8>),
    Blob(Vec<u8>),
}

/// One cell of a result row; a real is given by its IEEE-754 bits and is
/// always finite.
#[derive(Debug, Clone, PartialEq, Eq)]
pub enum Cell {
    Null,
    Integer(i64),
    Real(u64),
    Text(String),
}

/// One result record: column names with their cells, in column order.
#[derive(Debug, Clone)]
pub struct Row {
    pub columns: Vec<(String, Cell)>,
}

/// What `String::from_utf8_lossy` makes of a byte sequence.
pub uninterp spec fn utf8_lossy_of(b: Seq<u8>) -> Seq<char>;

/// Relies on `String::from_utf8_lossy`: the bytes decoded as UTF-8, each
/// invalid sequence replaced by U+FFFD; a function of the bytes alone.
#[verifier::external_body]
fn decode_lossy(b: &[u8]) -> (r: String)
    ensures
        r@ == utf8_lossy_of(b@),
{
    String::from_utf8_lossy(b).into_owned()
}

/// The bits of a finite double: the exponent field is not all ones.
pub open spec fn is_finite_bits(bits: u64) -> bool {
    (bits >> 52u64) & 0x7ffu64 != 0x7ffu64
}

/// The lowercase hexadecimal digit of a value below sixteen.
pub open spec fn hex_digit(d: u8) -> char {
    seq!['0', '1', '2', '3', '4', '5', '6', '7', '8', '9', 'a', 'b', 'c', 'd', 'e', 'f'][d as int]
}

/// Two lowercase hexadecimal digits per byte, high digit first.
pub open spec fn hex_of(b: Seq<u8>) -> Seq<char>
    decreases b.len(),
{
    if b.len() == 0 {
        Seq::empty()
    } else {
        hex_of(b.drop_last()) + seq![hex_digit(b.last() / 16), hex_digit(b.last() % 16)]
    }
}

/// A byte sequence as lowercase hexadecimal text.
pub fn hex_lower(bytes: &[u8]) -> (r: String)
    ensures
        r@ == hex_of(bytes@),
{
    let digits = "0123456789abcdef";
    proof {
        reveal_strlit("0123456789abcdef");
        assert(digits@ =~= seq![
            '0', '1', '2', '3', '4', '5', '6', '7', '8', '9', 'a', 'b', 'c', 'd', 'e', 'f'
        ]);
    }
    let mut r = String::new();
    let mut i: usize = 0;
    while i < bytes.len()
        invariant
            i <= bytes@.len(),
            digits@.len() == 16,
            forall|d: u8| d < 16 ==> #[trigger] digits@[d as int] == hex_digit(d),
            r@ == hex_of(bytes@.subrange(0, i as int)),
        decreases bytes@.len() - i,
    {
        let b = bytes[i];
        let hi = b / 16;
        let lo = b % 16;
        let hs = digits.substring_char(hi as usize, hi as usize + 1);
        let ls = digits.substring_char(lo as usize, lo as usize + 1);
        r.append(hs);
        r.append(ls);
        proof {
            let s = bytes@.subrange(0, i + 1);
            assert(s.drop_last() =~= bytes@.subrange(0, i as int));
            assert(hs@ =~= seq![hex_digit(hi)]);
            assert(ls@ =~= seq![hex_digit(lo)]);
        }
        i += 1;
    }
    assert(bytes@.subrange(0, i as int) =~= bytes@);
    r
}

/// The cell a stored value becomes: null, integer and finite real as they
/// are, a non-finite real as null, text decoded as UTF-8 (lossily), a blob
/// as lowercase hexadecimal text.
pub open spec fn cell_of(v: SqlValue, c: Cell) -> bool {
    match v {
        SqlValue::Null => c == Cell::Null,
        SqlValue::Integer(n) => c == Cell::Integer(n),
        SqlValue::Real(bits) => if is_finite_bits(bits) {
            c == Cell::Real(bits)
        } else {
            c == Cell::Null
        },
        SqlValue::Text(t) => c matches Cell::Text(s) && s@ == utf8_lossy_of(t@),
        SqlValue::Blob(b) => c matches Cell::Text(s) && s@ == hex_of(b@),
    }
}

/// Converts one stored value to a cell.
pub fn convert_value(v: &SqlValue) -> (r: Cell)
    ensures
        cell_of(*v, r),
{
    match v {
        SqlValue::Null => Cell::Null,
        SqlValue::Integer(n) => Cell::Integer(*n),
        SqlValue::Real(bits) => {
            if (*bits >> 52u64) & 0x7ffu64 != 0x7ffu64 {
                Cell::Real(*bits)
            } else {
                Cell::Null
            }
        },
        SqlValue::Text(t) => Cell::Text(decode_lossy(t.as_slice())),
        SqlValue::Blob(b) => Cell::Text(hex_lower(b.as_slice())),
    }
}

/// Builds a row from the column names and the stored values, in column order.
pub fn convert_row(names: &[String], values: &[SqlValue]) -> (r: Row)
    requires
        names@.len() == values@.len(),
    ensures
        r.columns@.len() == names@.len(),
        forall|i: int|
            0 <= i < names@.len() ==> (#[trigger] r.columns@[i]).0@ == names@[i]@ && cell_of(
                values@[i],
                r.columns@[i].1,
            ),
{
    let mut columns: Vec<(String, Cell)> = Vec::new();
    let mut i: usize = 0;
    while i < names.len()
        invariant
            names@.len() == values@.len(),
            i <= names@.len(),
            columns@.len() == i,
            forall|k: int|
                0 <= k < i ==> (#[trigger] columns@[k]).0@ == names@[k]@ && cell_of(
                    values@[k],
                    columns@[k].1,
                ),
        decreases names@.len() - i,
    {
        columns.push((names[i].clone(), convert_value(&values[i])));
        i += 1;
    }
    Row { columns }
}

} // verus!
