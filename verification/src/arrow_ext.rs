//! The errors of looking a column up in tabular data.

use vstd::prelude::*;
use vstd::string::StringExecFns;

verus! {

/// Why a column or an array could not be had at the type asked for.
#[derive(Debug)]
pub enum ArrowExtError {
    /// The batch has no column of this name.
    ColumnNotFound(String),
    /// The column of this name holds another type.
    CannotDowncastColumn(String),
    /// The array holds another type.
    CannotDowncastArray,
}

impl ArrowExtError {
    /// The error in words.
    pub open spec fn spec_message(&self) -> Seq<char> {
        match self {
            ArrowExtError::ColumnNotFound(name) => "column `"@ + name@ + "` not found"@,
            ArrowExtError::CannotDowncastColumn(name) => "cannot downcast column `"@ + name@
                + "`"@,
            ArrowExtError::CannotDowncastArray => "cannot downcast array"@,
        }
    }

    /// The error in words.
    pub fn message(&self) -> (r: String)
        ensures
            r@ == self.spec_message(),
    {
        match self {
            ArrowExtError::ColumnNotFound(name) => {
                let mut s = String::from_str("column `");
                s.append(name.as_str());
                s.append("` not found");
                s
            },
            ArrowExtError::CannotDowncastColumn(name) => {
                let mut s = String::from_str("cannot downcast column `");
                s.append(name.as_str());
                s.append("`");
                s
            },
            ArrowExtError::CannotDowncastArray => String::from_str("cannot downcast array"),
        }
    }
}

/// The column of name `col_name` at the type asked for. `column` is what
/// the lookup gave: `None` where the batch has no such column, `Some(None)`
/// where the column holds another type, else the column.
pub fn column_or_error<T>(col_name: &str, column: Option<Option<T>>) -> (r: Result<T, ArrowExtError>)
    ensures
        match column {
            None => r matches Err(ArrowExtError::ColumnNotFound(n)) && n@ == col_name@,
            Some(None) => r matches Err(ArrowExtError::CannotDowncastColumn(n)) && n@
                == col_name@,
            Some(Some(c)) => r == Ok::<T, ArrowExtError>(c),
        },
{
    match column {
        None => Err(ArrowExtError::ColumnNotFound(String::from_str(col_name))),
        Some(None) => Err(ArrowExtError::CannotDowncastColumn(String::from_str(col_name))),
        Some(Some(c)) => Ok(c),
    }
}

/// An array at the type asked for. `array` is what the downcast gave.
pub fn array_or_error<T>(array: Option<T>) -> (r: Result<T, ArrowExtError>)
    ensures
        r == match array {
            None => Err::<T, ArrowExtError>(ArrowExtError::CannotDowncastArray),
            Some(a) => Ok(a),
        },
{
    match array {
        None => Err(ArrowExtError::CannotDowncastArray),
        Some(a) => Ok(a),
    }
}

} // verus!
