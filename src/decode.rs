//! Decoding one result row of the listing query into a [`TodoEntry`].
use vstd::prelude::*;
use vstd::utf8::{decode_utf8, valid_utf8};

verus! {

/// One to-do item: the key the store assigned and its text.
#[derive(Debug, Clone, PartialEq, Eq)]
pub struct TodoEntry {
    pub id: u32,
    pub text: String,
}

impl View for TodoEntry {
    type V = (u32, Seq<char>);

    open spec fn view(&self) -> (u32, Seq<char>) {
        (self.id, self.text@)
    }
}

/// The storage class of a value held in one column of a result row.
#[derive(Debug, Clone, Copy, PartialEq, Eq, Structural)]
pub enum CellKind {
    Null,
    Integer,
    Real,
    Text,
    Blob,
}

/// A value held in one column of a result row, as the store hands it out.
///
/// A floating-point value is only ever rejected by the decoder, so its
/// number is not carried.
#[derive(Debug, Clone, PartialEq, Eq)]
pub enum CellValue {
    Null,
    Integer(i64),
    Real,
    Text(Vec<u8>),
    Blob(Vec<u8>),
}

impl CellValue {
    pub open spec fn spec_kind(&self) -> CellKind {
        match self {
            CellValue::Null => CellKind::Null,
            CellValue::Integer(_) => CellKind::Integer,
            CellValue::Real => CellKind::Real,
            CellValue::Text(_) => CellKind::Text,
            CellValue::Blob(_) => CellKind::Blob,
        }
    }

    /// The storage class of this value.
    #[verifier::when_used_as_spec(spec_kind)]
    pub fn kind(&self) -> (k: CellKind)
        ensures
            k == self.spec_kind(),
    {
        match self {
            CellValue::Null => CellKind::Null,
            CellValue::Integer(_) => CellKind::Integer,
            CellValue::Real => CellKind::Real,
            CellValue::Text(_) => CellKind::Text,
            CellValue::Blob(_) => CellKind::Blob,
        }
    }
}

/// Why a result row could not be turned into a [`TodoEntry`].
#[derive(Debug, Clone, Copy, PartialEq, Eq, Structural)]
pub enum MapError {
    /// The row has no column at this position.
    MissingColumn { column: usize },
    /// The column holds a value of a storage class the field cannot take.
    WrongType { column: usize, found: CellKind },
    /// The column holds an integer that does not fit the identifier.
    OutOfRange { column: usize, value: i64 },
    /// The column holds text that is not valid UTF-8.
    InvalidText { column: usize },
}

/// Position of the identifier in a row of the listing query.
pub const ID_COLUMN: usize = 0;

/// Position of the text in a row of the listing query.
pub const TEXT_COLUMN: usize = 1;

/// The identifier that the cell at `column` decodes to.
pub open spec fn id_of(cell: CellValue, column: usize) -> Result<u32, MapError> {
    match cell {
        CellValue::Integer(i) => if 0 <= i <= u32::MAX {
            Ok(i as u32)
        } else {
            Err(MapError::OutOfRange { column, value: i })
        },
        _ => Err(MapError::WrongType { column, found: cell.spec_kind() }),
    }
}

/// The text that the cell at `column` decodes to.
pub open spec fn text_of(cell: CellValue, column: usize) -> Result<Seq<char>, MapError> {
    match cell {
        CellValue::Text(b) => if valid_utf8(b@) {
            Ok(decode_utf8(b@))
        } else {
            Err(MapError::InvalidText { column })
        },
        _ => Err(MapError::WrongType { column, found: cell.spec_kind() }),
    }
}

/// The entry a row decodes to: the identifier is read first, then the text,
/// and the first failure is the one reported.
pub open spec fn decoded(row: Seq<CellValue>) -> Result<(u32, Seq<char>), MapError> {
    if row.len() <= ID_COLUMN {
        Err(MapError::MissingColumn { column: ID_COLUMN })
    } else if id_of(row[ID_COLUMN as int], ID_COLUMN) is Err {
        Err(id_of(row[ID_COLUMN as int], ID_COLUMN)->Err_0)
    } else if row.len() <= TEXT_COLUMN {
        Err(MapError::MissingColumn { column: TEXT_COLUMN })
    } else if text_of(row[TEXT_COLUMN as int], TEXT_COLUMN) is Err {
        Err(text_of(row[TEXT_COLUMN as int], TEXT_COLUMN)->Err_0)
    } else {
        Ok(
            (
                id_of(row[ID_COLUMN as int], ID_COLUMN)->Ok_0,
                text_of(row[TEXT_COLUMN as int], TEXT_COLUMN)->Ok_0,
            ),
        )
    }
}

/// Relies on rusqlite's `FromSql` for `u32`, applied to an integer value:
/// the integer is kept when it lies in `u32`'s range, else refused.
#[verifier::external_body]
fn integer_as_u32(i: i64) -> (r: Option<u32>)
    ensures
        r is Some <==> 0 <= i <= u32::MAX,
        r matches Some(v) ==> v == i,
{
    <u32 as rusqlite::types::FromSql>::column_result(rusqlite::types::ValueRef::Integer(i)).ok()
}

/// Relies on rusqlite's `FromSql` for `String`, applied to a text value: the
/// bytes are decoded as UTF-8, and refused when they are not valid UTF-8.
#[verifier::external_body]
fn text_as_string(b: &Vec<u8>) -> (r: Option<String>)
    ensures
        r is Some <==> valid_utf8(b@),
        r matches Some(s) ==> s@ == decode_utf8(b@),
{
    <String as rusqlite::types::FromSql>::column_result(rusqlite::types::ValueRef::Text(b)).ok()
}

fn decode_id(cell: &CellValue, column: usize) -> (r: Result<u32, MapError>)
    ensures
        r == id_of(*cell, column),
{
    match cell {
        CellValue::Integer(i) => match integer_as_u32(*i) {
            Some(v) => Ok(v),
            None => Err(MapError::OutOfRange { column, value: *i }),
        },
        _ => Err(MapError::WrongType { column, found: cell.kind() }),
    }
}

fn decode_text(cell: &CellValue, column: usize) -> (r: Result<String, MapError>)
    ensures
        r matches Ok(s) ==> text_of(*cell, column) == Ok::<Seq<char>, MapError>(s@),
        r matches Err(e) ==> text_of(*cell, column) == Err::<Seq<char>, MapError>(e),
{
    match cell {
        CellValue::Text(b) => match text_as_string(b) {
            Some(s) => Ok(s),
            None => Err(MapError::InvalidText { column }),
        },
        _ => Err(MapError::WrongType { column, found: cell.kind() }),
    }
}

/// Decodes one row of the listing query: an integer identifier in the first
/// column and a UTF-8 text in the second.
pub fn decode_row(row: &Vec<CellValue>) -> (r: Result<TodoEntry, MapError>)
    ensures
        r matches Ok(e) ==> decoded(row@) == Ok::<(u32, Seq<char>), MapError>(e@),
        r matches Err(m) ==> decoded(row@) == Err::<(u32, Seq<char>), MapError>(m),
{
    if row.len() <= ID_COLUMN {
        return Err(MapError::MissingColumn { column: ID_COLUMN });
    }
    let id = match decode_id(&row[ID_COLUMN], ID_COLUMN) {
        Ok(id) => id,
        Err(m) => return Err(m),
    };
    if row.len() <= TEXT_COLUMN {
        return Err(MapError::MissingColumn { column: TEXT_COLUMN });
    }
    let text = match decode_text(&row[TEXT_COLUMN], TEXT_COLUMN) {
        Ok(t) => t,
        Err(m) => return Err(m),
    };
    Ok(TodoEntry { id, text })
}

} // verus!
