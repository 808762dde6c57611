//! The tagged result type returned by a storage statement execution,
//! and the value kinds a row can hold.
//!
//! Floating-point columns are carried as raw bit patterns: the runtime
//! never computes with them, it only passes them through.

use vstd::prelude::*;

use crate::decimal::{i128_to_dec, spec_dec_seq, u128_to_dec};

verus! {

/// One cell of a result row.
#[derive(Debug, PartialEq, Eq)]
pub enum Value {
    Bool(bool),
    I8(i8),
    I16(i16),
    I32(i32),
    I64(i64),
    I128(i128),
    U8(u8),
    U16(u16),
    U32(u32),
    U64(u64),
    U128(u128),
    /// The bit pattern of a 32-bit float column.
    F32Bits(u32),
    /// The bit pattern of a 64-bit float column.
    F64Bits(u64),
    Str(String),
    Bytea(Vec<u8>),
    /// An IP address, in its textual form.
    Inet(String),
    /// A 128-bit UUID.
    Uuid(u128),
    /// A string-keyed map.
    Dict(Vec<(String, Value)>),
    /// An ordered list.
    List(Vec<Value>),
    /// A two-dimensional point, both coordinates as 64-bit float bits.
    PointBits { x: u64, y: u64 },
    Null,
}

/// The column types a storage schema can declare.
#[derive(Debug, Clone, Copy, PartialEq, Eq, Hash)]
pub enum DataType {
    Boolean,
    Int8,
    Int16,
    Int32,
    Int,
    Int128,
    Uint8,
    Uint16,
    Uint32,
    Uint64,
    Uint128,
    Float32,
    Float,
    Text,
    Bytea,
    Inet,
    Date,
    Timestamp,
    Time,
    Interval,
    Uuid,
    Dict,
    List,
    Decimal,
    Point,
}

/// A storage variable shown by a `SHOW` statement.
#[derive(Debug, Clone, PartialEq, Eq)]
pub enum PayloadVariable {
    Tables(Vec<String>),
    Functions(Vec<String>),
    Version(String),
}

/// The tagged result of one storage statement.
#[derive(Debug, PartialEq, Eq)]
pub enum Payload {
    ShowColumns(Vec<(String, DataType)>),
    Create,
    Insert(usize),
    Select { labels: Vec<String>, rows: Vec<Vec<Value>> },
    SelectMap(Vec<Vec<(String, Value)>>),
    Delete(usize),
    Update(usize),
    DropTable,
    DropFunction,
    AlterTable,
    CreateIndex,
    DropIndex,
    StartTransaction,
    Commit,
    Rollback,
    ShowVariable(PayloadVariable),
}

/// One result row paired with its column labels.
pub struct Row(pub Vec<String>, pub Vec<Value>);

impl Value {
    /// The boolean this cell holds, if it holds one.
    pub fn try_bool(&self) -> (r: Result<bool, ()>)
        ensures
            *self matches Value::Bool(b) ==> r == Ok::<bool, ()>(b),
            !(self is Bool) ==> r is Err,
    {
        if let Value::Bool(b) = self {
            Ok(*b)
        } else {
            Err(())
        }
    }

    /// The string this cell holds, if it holds one.
    pub fn try_str(&self) -> (r: Result<&String, ()>)
        ensures
            *self matches Value::Str(s) ==> r matches Ok(v) && *v == s,
            !(self is Str) ==> r is Err,
    {
        if let Value::Str(s) = self {
            Ok(s)
        } else {
            Err(())
        }
    }
}

/// The textual rendering of one cell, used when query results are
/// spliced back into a document.
pub open spec fn spec_value_text(v: Value) -> Seq<char> {
    match v {
        Value::Bool(b) => if b {
            "true"@
        } else {
            "false"@
        },
        Value::I8(n) => spec_int_text(n as int),
        Value::I16(n) => spec_int_text(n as int),
        Value::I32(n) => spec_int_text(n as int),
        Value::I64(n) => spec_int_text(n as int),
        Value::I128(n) => spec_int_text(n as int),
        Value::U8(n) => spec_dec_seq(n as nat),
        Value::U16(n) => spec_dec_seq(n as nat),
        Value::U32(n) => spec_dec_seq(n as nat),
        Value::U64(n) => spec_dec_seq(n as nat),
        Value::U128(n) => spec_dec_seq(n as nat),
        Value::F32Bits(_) => "[f32]"@,
        Value::F64Bits(_) => "[f64]"@,
        Value::Str(s) => s@,
        Value::Bytea(_) => "[bytes]"@,
        Value::Inet(s) => s@,
        Value::Uuid(n) => spec_dec_seq(n as nat),
        Value::Dict(_) => "[map]"@,
        Value::List(_) => "[list]"@,
        Value::PointBits { .. } => "[point]"@,
        Value::Null => "null"@,
    }
}

/// The decimal rendering of a possibly negative number.
pub open spec fn spec_int_text(n: int) -> Seq<char> {
    if n >= 0 {
        spec_dec_seq(n as nat)
    } else {
        seq!['-'] + spec_dec_seq((-n) as nat)
    }
}

/// Render one cell as text.
pub fn value_text(v: &Value) -> (r: String)
    ensures
        r@ == spec_value_text(*v),
{
    match v {
        Value::Bool(b) => if *b {
            "true".to_owned()
        } else {
            "false".to_owned()
        },
        Value::I8(n) => i128_to_dec(*n as i128),
        Value::I16(n) => i128_to_dec(*n as i128),
        Value::I32(n) => i128_to_dec(*n as i128),
        Value::I64(n) => i128_to_dec(*n as i128),
        Value::I128(n) => i128_to_dec(*n),
        Value::U8(n) => u128_to_dec(*n as u128),
        Value::U16(n) => u128_to_dec(*n as u128),
        Value::U32(n) => u128_to_dec(*n as u128),
        Value::U64(n) => u128_to_dec(*n as u128),
        Value::U128(n) => u128_to_dec(*n),
        Value::F32Bits(_) => "[f32]".to_owned(),
        Value::F64Bits(_) => "[f64]".to_owned(),
        Value::Str(s) => s.clone(),
        Value::Bytea(_) => "[bytes]".to_owned(),
        Value::Inet(s) => s.clone(),
        Value::Uuid(n) => u128_to_dec(*n),
        Value::Dict(_) => "[map]".to_owned(),
        Value::List(_) => "[list]".to_owned(),
        Value::PointBits { .. } => "[point]".to_owned(),
        Value::Null => "null".to_owned(),
    }
}

/// The textual rendering of one row: its cells separated by `, `.
pub open spec fn spec_row_text(row: Seq<Value>) -> Seq<char>
    decreases row.len(),
{
    if row.len() == 0 {
        Seq::empty()
    } else if row.len() == 1 {
        spec_value_text(row[0])
    } else {
        spec_row_text(row.drop_last()) + ", "@ + spec_value_text(row.last())
    }
}

/// Render one row as text.
pub fn row_text(row: &Vec<Value>) -> (r: String)
    ensures
        r@ == spec_row_text(row@),
{
    let mut r = String::new();
    let mut i: usize = 0;
    while i < row.len()
        invariant
            i <= row@.len(),
            r@ == spec_row_text(row@.take(i as int)),
        decreases row@.len() - i,
    {
        if i > 0 {
            r.append(", ");
        }
        let cell = value_text(&row[i]);
        r.append(cell.as_str());
        proof {
            assert(row@.take(i + 1 as int).drop_last() =~= row@.take(i as int));
            assert(row@.take(i + 1 as int).last() == row@[i as int]);
        }
        i = i + 1;
    }
    proof {
        assert(row@.take(row@.len() as int) =~= row@);
    }
    r
}

/// The textual rendering of a select result: its rows separated by
/// line breaks.
pub open spec fn spec_rows_text(rows: Seq<Seq<Value>>) -> Seq<char>
    decreases rows.len(),
{
    if rows.len() == 0 {
        Seq::empty()
    } else if rows.len() == 1 {
        spec_row_text(rows[0])
    } else {
        spec_rows_text(rows.drop_last()) + "\n"@ + spec_row_text(rows.last())
    }
}

/// The textual rendering of one payload.
pub open spec fn spec_payload_text(p: Payload) -> Seq<char> {
    match p {
        Payload::Select { labels, rows } => spec_rows_text(rows.deep_view()),
        Payload::Insert(n) => "Insert("@ + spec_dec_seq(n as nat) + ")"@,
        Payload::Delete(n) => "Delete("@ + spec_dec_seq(n as nat) + ")"@,
        Payload::Update(n) => "Update("@ + spec_dec_seq(n as nat) + ")"@,
        _ => "[ok]"@,
    }
}

/// Render one payload as text.
pub fn payload_text(p: &Payload) -> (r: String)
    ensures
        r@ == spec_payload_text(*p),
{
    match p {
        Payload::Select { labels: _, rows } => {
            let mut r = String::new();
            let mut i: usize = 0;
            while i < rows.len()
                invariant
                    i <= rows@.len(),
                    r@ == spec_rows_text(rows.deep_view().take(i as int)),
                decreases rows@.len() - i,
            {
                if i > 0 {
                    r.append("\n");
                }
                let line = row_text(&rows[i]);
                r.append(line.as_str());
                proof {
                    assert(rows.deep_view()[i as int] =~= rows@[i as int]@);
                    assert(rows.deep_view().take(i + 1 as int).drop_last() =~= rows.deep_view()
                        .take(i as int));
                    assert(rows.deep_view().take(i + 1 as int).last() == rows.deep_view()[
                        i as int
                    ]);
                }
                i = i + 1;
            }
            proof {
                assert(rows.deep_view().take(rows.deep_view().len() as int) =~= rows.deep_view());
                assert(rows.deep_view().len() == rows@.len());
            }
            r
        },
        Payload::Insert(n) => wrap_count("Insert(", *n),
        Payload::Delete(n) => wrap_count("Delete(", *n),
        Payload::Update(n) => wrap_count("Update(", *n),
        _ => "[ok]".to_owned(),
    }
}

/// `prefix`, then `n` in decimal, then a closing parenthesis.
fn wrap_count(prefix: &str, n: usize) -> (r: String)
    ensures
        r@ == prefix@ + spec_dec_seq(n as nat) + ")"@,
{
    let mut r: String = prefix.to_owned();
    let num = u128_to_dec(n as u128);
    r.append(num.as_str());
    r.append(")");
    r
}

} // verus!
