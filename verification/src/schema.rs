//! Adding a column to a table at run time.
//!
//! Table, column and type reach the statement text as they are, so each of
//! them has to be a plain identifier: nothing else is let through.

use vstd::prelude::*;
use vstd::string::{StrSliceExecFns, StringExecFns};
use crate::errors::ApiError;

verus! {

/// The column to add.
#[derive(Debug, Clone, PartialEq, Eq)]
pub struct Column {
    pub table: String,
    pub column_name: String,
    pub column_type: String,
}

/// Whether an identifier may begin with this character: an ASCII letter or
/// an underscore.
pub open spec fn is_identifier_start(c: char) -> bool {
    ||| 'a' as u32 <= c as u32 <= 'z' as u32
    ||| 'A' as u32 <= c as u32 <= 'Z' as u32
    ||| c == '_'
}

/// Whether an identifier may go on with this character: an ASCII letter, an
/// ASCII digit or an underscore.
pub open spec fn is_identifier_part(c: char) -> bool {
    is_identifier_start(c) || '0' as u32 <= c as u32 <= '9' as u32
}

/// Whether a text is a plain identifier: not empty, begun by a letter or an
/// underscore, and made of letters, digits and underscores alone.
pub open spec fn is_identifier(text: Seq<char>) -> bool {
    &&& text.len() >= 1
    &&& is_identifier_start(text[0])
    &&& forall|i: int| 0 <= i < text.len() ==> is_identifier_part(#[trigger] text[i])
}

/// The statement that adds a column, for three identifiers.
pub open spec fn add_column_text(table: Seq<char>, column: Seq<char>, kind: Seq<char>) -> Seq<char> {
    "ALTER TABLE "@ + table + " ADD COLUMN IF NOT EXISTS "@ + column + " "@ + kind
}

/// The message that confirms an added column.
pub open spec fn column_added_text(table: Seq<char>, column: Seq<char>) -> Seq<char> {
    "Added column '"@ + column + "' to table '"@ + table + "'."@
}

/// What building the statement returns, in contracts.
pub open spec fn statement_result_view(built: Result<String, ApiError>) -> Result<
    Seq<char>,
    ApiError,
> {
    match built {
        Ok(sql) => Ok(sql@),
        Err(e) => Err(e),
    }
}

fn identifier_start(c: char) -> (ok: bool)
    ensures
        ok == is_identifier_start(c),
{
    let u = c as u32;
    (u >= 'a' as u32 && u <= 'z' as u32) || (u >= 'A' as u32 && u <= 'Z' as u32) || c == '_'
}

fn identifier_part(c: char) -> (ok: bool)
    ensures
        ok == is_identifier_part(c),
{
    let u = c as u32;
    identifier_start(c) || (u >= '0' as u32 && u <= '9' as u32)
}

/// Whether a text is a plain identifier.
pub fn check_identifier(text: &str) -> (ok: bool)
    ensures
        ok == is_identifier(text@),
{
    let len = text.unicode_len();
    if len == 0 {
        return false;
    }
    if !identifier_start(text.get_char(0)) {
        return false;
    }
    let mut i: usize = 0;
    while i < len
        invariant
            len == text@.len(),
            i <= len,
            forall|j: int| 0 <= j < i ==> is_identifier_part(#[trigger] text@[j]),
        decreases len - i,
    {
        if !identifier_part(text.get_char(i)) {
            return false;
        }
        i += 1;
    }
    true
}

impl Column {
    /// Whether table, column and type are plain identifiers.
    pub open spec fn is_safe(&self) -> bool {
        is_identifier(self.table@) && is_identifier(self.column_name@) && is_identifier(
            self.column_type@,
        )
    }

    /// The statement that adds the column, or a validation failure where
    /// table, column or type is no plain identifier.
    pub fn add_column_statement(&self) -> (built: Result<String, ApiError>)
        ensures
            statement_result_view(built) == if self.is_safe() {
                Ok::<Seq<char>, ApiError>(
                    add_column_text(self.table@, self.column_name@, self.column_type@),
                )
            } else {
                Err::<Seq<char>, ApiError>(ApiError::Validation)
            },
    {
        if check_identifier(self.table.as_str()) && check_identifier(self.column_name.as_str())
            && check_identifier(self.column_type.as_str()) {
            let mut sql = String::from_str("ALTER TABLE ");
            sql.append(self.table.as_str());
            sql.append(" ADD COLUMN IF NOT EXISTS ");
            sql.append(self.column_name.as_str());
            sql.append(" ");
            sql.append(self.column_type.as_str());
            Ok(sql)
        } else {
            Err(ApiError::Validation)
        }
    }

    /// The message that confirms the added column.
    pub fn added_message(&self) -> (message: String)
        ensures
            message@ == column_added_text(self.table@, self.column_name@),
    {
        let mut message = String::from_str("Added column '");
        message.append(self.column_name.as_str());
        message.append("' to table '");
        message.append(self.table.as_str());
        message.append("'.");
        message
    }
}

} // verus!
