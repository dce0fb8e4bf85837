//! Value marshaling between the dynamic external representation used at the
//! JSON-speaking boundary and the typed value model of the SQL engine.
//!
//! The mapping is deliberately lossy for booleans (they bind as integers) and
//! for composite values (they bind as their canonical textual serialization);
//! callers that need boolean or composite semantics must encode above this
//! layer.
use vstd::prelude::*;

verus! {

/// A dynamic, schema-less value as it arrives from the external boundary.
///
/// A floating-point number is carried as the IEEE-754 bit pattern of the
/// 64-bit float (`Float`); the boundary classifies a number as `Integer` when
/// it carries no fractional or exponent information and fits the signed
/// 64-bit range, else as `Float`. A composite (array/object) is carried as
/// its canonical textual serialization. `Bytes` is the byte-sequence
/// representation in which blobs are handed back.
#[derive(Debug, Clone, PartialEq, Eq)]
pub enum ExternalValue {
    Null,
    Boolean(bool),
    Integer(i64),
    Float(u64),
    Text(String),
    Composite(String),
    Bytes(Vec<u8>),
}

/// The typed value model of the SQL engine: the canonical wire representation
/// for bound parameters and returned cells. `Real` carries the IEEE-754 bit
/// pattern of the 64-bit float.
#[derive(Debug, Clone, PartialEq, Eq)]
pub enum SqlValue {
    Null,
    Integer(i64),
    Real(u64),
    Text(String),
    Blob(Vec<u8>),
}

/// Mathematical model of an `ExternalValue`.
pub enum ExtView {
    Null,
    Boolean(bool),
    Integer(i64),
    Float(u64),
    Text(Seq<char>),
    Composite(Seq<char>),
    Bytes(Seq<u8>),
}

/// Mathematical model of a `SqlValue`.
pub enum SqlView {
    Null,
    Integer(i64),
    Real(u64),
    Text(Seq<char>),
    Blob(Seq<u8>),
}

impl View for ExternalValue {
    type V = ExtView;

    open spec fn view(&self) -> ExtView {
        match self {
            ExternalValue::Null => ExtView::Null,
            ExternalValue::Boolean(b) => ExtView::Boolean(*b),
            ExternalValue::Integer(i) => ExtView::Integer(*i),
            ExternalValue::Float(bits) => ExtView::Float(*bits),
            ExternalValue::Text(s) => ExtView::Text(s@),
            ExternalValue::Composite(s) => ExtView::Composite(s@),
            ExternalValue::Bytes(b) => ExtView::Bytes(b@),
        }
    }
}

impl View for SqlValue {
    type V = SqlView;

    open spec fn view(&self) -> SqlView {
        match self {
            SqlValue::Null => SqlView::Null,
            SqlValue::Integer(i) => SqlView::Integer(*i),
            SqlValue::Real(bits) => SqlView::Real(*bits),
            SqlValue::Text(s) => SqlView::Text(s@),
            SqlValue::Blob(b) => SqlView::Blob(b@),
        }
    }
}

/// The decimal digit character for `d` (0 through 9).
pub open spec fn spec_digit_char(d: u8) -> char {
    if d == 0 {
        '0'
    } else if d == 1 {
        '1'
    } else if d == 2 {
        '2'
    } else if d == 3 {
        '3'
    } else if d == 4 {
        '4'
    } else if d == 5 {
        '5'
    } else if d == 6 {
        '6'
    } else if d == 7 {
        '7'
    } else if d == 8 {
        '8'
    } else {
        '9'
    }
}

/// Decimal rendering of a byte, without leading zeros.
pub open spec fn spec_u8_dec(n: u8) -> Seq<char> {
    if n >= 100 {
        seq![
            spec_digit_char((n / 100) as u8),
            spec_digit_char(((n / 10) % 10) as u8),
            spec_digit_char((n % 10) as u8),
        ]
    } else if n >= 10 {
        seq![spec_digit_char((n / 10) as u8), spec_digit_char((n % 10) as u8)]
    } else {
        seq![spec_digit_char(n)]
    }
}

/// Comma-separated decimal renderings of the bytes, in order.
pub open spec fn spec_bytes_body(b: Seq<u8>) -> Seq<char>
    decreases b.len(),
{
    if b.len() == 0 {
        Seq::empty()
    } else if b.len() == 1 {
        spec_u8_dec(b[0])
    } else {
        spec_bytes_body(b.drop_last()) + seq![','] + spec_u8_dec(b.last())
    }
}

/// Canonical textual serialization of a byte sequence as an array of decimal
/// byte values in square brackets.
pub open spec fn spec_bytes_text(b: Seq<u8>) -> Seq<char> {
    seq!['['] + spec_bytes_body(b) + seq![']']
}

/// External-to-SQL mapping: Null stays Null; a boolean binds as the integer
/// one or zero; numbers pass through; text passes through; a composite binds
/// as its canonical textual serialization; a byte sequence binds as the
/// canonical textual serialization of an array of byte values.
pub open spec fn spec_to_sql(v: ExtView) -> SqlView {
    match v {
        ExtView::Null => SqlView::Null,
        ExtView::Boolean(b) => SqlView::Integer(if b { 1 } else { 0 }),
        ExtView::Integer(i) => SqlView::Integer(i),
        ExtView::Float(bits) => SqlView::Real(bits),
        ExtView::Text(s) => SqlView::Text(s),
        ExtView::Composite(s) => SqlView::Text(s),
        ExtView::Bytes(b) => SqlView::Text(spec_bytes_text(b)),
    }
}

/// SQL-to-external mapping: Null stays Null; integers and reals come back as
/// numbers; text comes back as text; a blob comes back as a byte sequence.
pub open spec fn spec_to_external(v: SqlView) -> ExtView {
    match v {
        SqlView::Null => ExtView::Null,
        SqlView::Integer(i) => ExtView::Integer(i),
        SqlView::Real(bits) => ExtView::Float(bits),
        SqlView::Text(s) => ExtView::Text(s),
        SqlView::Blob(b) => ExtView::Bytes(b),
    }
}

fn digit_str(d: u8) -> (r: &'static str)
    requires
        d < 10,
    ensures
        r@ == seq![spec_digit_char(d)],
{
    proof {
        reveal_strlit("0");
        reveal_strlit("1");
        reveal_strlit("2");
        reveal_strlit("3");
        reveal_strlit("4");
        reveal_strlit("5");
        reveal_strlit("6");
        reveal_strlit("7");
        reveal_strlit("8");
        reveal_strlit("9");
    }
    let r = match d {
        0 => "0",
        1 => "1",
        2 => "2",
        3 => "3",
        4 => "4",
        5 => "5",
        6 => "6",
        7 => "7",
        8 => "8",
        _ => "9",
    };
    proof {
        assert(r@ =~= seq![spec_digit_char(d)]);
    }
    r
}

fn append_u8_dec(s: &mut String, n: u8)
    ensures
        final(s)@ == old(s)@ + spec_u8_dec(n),
{
    if n >= 100 {
        s.append(digit_str(n / 100));
        s.append(digit_str((n / 10) % 10));
        s.append(digit_str(n % 10));
    } else if n >= 10 {
        s.append(digit_str(n / 10));
        s.append(digit_str(n % 10));
    } else {
        s.append(digit_str(n));
    }
    proof {
        assert(s@ =~= old(s)@ + spec_u8_dec(n));
    }
}

/// Renders a byte sequence as the canonical array-of-byte-values text, e.g.
/// three bytes render as `[1,2,3]`.
pub fn render_byte_array(b: &Vec<u8>) -> (r: String)
    ensures
        r@ == spec_bytes_text(b@),
{
    proof {
        reveal_strlit("[");
        reveal_strlit("]");
        reveal_strlit(",");
        assert("["@ =~= seq!['[']);
        assert("]"@ =~= seq![']']);
        assert(","@ =~= seq![',']);
    }
    let mut s = String::from_str("[");
    let mut i: usize = 0;
    while i < b.len()
        invariant
            0 <= i <= b@.len(),
            s@ == seq!['['] + spec_bytes_body(b@.take(i as int)),
        decreases b@.len() - i,
    {
        let ghost entry = s@;
        if i > 0 {
            s.append(",");
        }
        append_u8_dec(&mut s, b[i]);
        proof {
            reveal_strlit(",");
            assert(","@ =~= seq![',']);
            let prefix = b@.take(i as int);
            let next = b@.take((i + 1) as int);
            if i == 0 {
                assert(next.len() == 1);
                assert(next[0] == b@[0]);
                assert(spec_bytes_body(next) == spec_u8_dec(b@[0]));
                assert(s@ == entry + spec_u8_dec(b@[0]));
                assert(s@ =~= seq!['['] + spec_bytes_body(next));
            } else {
                assert(next.len() >= 2);
                assert(next.drop_last() =~= prefix);
                assert(next.last() == b@[i as int]);
                assert(spec_bytes_body(next) == spec_bytes_body(prefix) + seq![','] + spec_u8_dec(
                    b@[i as int],
                ));
                assert(s@ == (entry + ","@) + spec_u8_dec(b@[i as int]));
                assert(","@ == seq![',']);
                assert(entry == seq!['['] + spec_bytes_body(prefix));
                assert(s@ =~= seq!['['] + spec_bytes_body(next));
            }
        }
        i += 1;
    }
    s.append("]");
    proof {
        assert(b@.take(b@.len() as int) =~= b@);
        assert(s@ =~= spec_bytes_text(b@));
    }
    s
}

/// Converts one external value to the SQL value it binds as.
pub fn to_sql(v: ExternalValue) -> (r: SqlValue)
    ensures
        r@ == spec_to_sql(v@),
{
    match v {
        ExternalValue::Null => SqlValue::Null,
        ExternalValue::Boolean(b) => SqlValue::Integer(if b { 1 } else { 0 }),
        ExternalValue::Integer(i) => SqlValue::Integer(i),
        ExternalValue::Float(bits) => SqlValue::Real(bits),
        ExternalValue::Text(s) => SqlValue::Text(s),
        ExternalValue::Composite(s) => SqlValue::Text(s),
        ExternalValue::Bytes(b) => SqlValue::Text(render_byte_array(&b)),
    }
}

/// Converts one returned SQL cell back to its external representation.
pub fn to_external(v: SqlValue) -> (r: ExternalValue)
    ensures
        r@ == spec_to_external(v@),
{
    match v {
        SqlValue::Null => ExternalValue::Null,
        SqlValue::Integer(i) => ExternalValue::Integer(i),
        SqlValue::Real(bits) => ExternalValue::Float(bits),
        SqlValue::Text(s) => ExternalValue::Text(s),
        SqlValue::Blob(b) => ExternalValue::Bytes(b),
    }
}

/// Law: the encode/decode pair is a perfect round trip for every external
/// value that is a null, an integer number, a floating number, or a text.
pub proof fn lemma_round_trip(v: ExtView)
    requires
        v is Null || v is Integer || v is Float || v is Text,
    ensures
        spec_to_external(spec_to_sql(v)) == v,
{
}

/// Law: a boolean does not round-trip; it comes back as the corresponding
/// integer number (one for true, zero for false).
pub proof fn lemma_boolean_degrades(b: bool)
    ensures
        spec_to_external(spec_to_sql(ExtView::Boolean(b))) == ExtView::Integer(
            if b {
                1i64
            } else {
                0i64
            },
        ),
{
}

/// Law: a composite does not round-trip; it comes back as a text holding its
/// canonical serialization, indistinguishable from a value that was always
/// text.
pub proof fn lemma_composite_degrades(s: Seq<char>)
    ensures
        spec_to_external(spec_to_sql(ExtView::Composite(s))) == ExtView::Text(s),
{
}

} // verus!
