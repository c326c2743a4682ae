//! The languages the site is offered in and their encoding in the
//! `available_language` database enum.
use vstd::prelude::*;
use crate::attend_status::SqlDecodeError;

verus! {

/// A language the invitation is available in.
#[derive(Debug, Clone, Copy, PartialEq, Eq, Structural)]
pub enum AvailableLanguage {
    En,
    Es,
}

/// The bytes stored in the database for a language: `en`, `es`.
pub open spec fn language_sql_bytes(l: AvailableLanguage) -> Seq<u8> {
    match l {
        AvailableLanguage::En => seq![101u8, 110u8],
        AvailableLanguage::Es => seq![101u8, 115u8],
    }
}

/// Decoding a column value: NULL is an error, known bytes give their
/// language, anything else is an error.
pub open spec fn language_from_sql(bytes: Option<Seq<u8>>) -> Result<AvailableLanguage, SqlDecodeError> {
    match bytes {
        None => Err(SqlDecodeError::UnexpectedNull),
        Some(b) => if b == language_sql_bytes(AvailableLanguage::En) {
            Ok(AvailableLanguage::En)
        } else if b == language_sql_bytes(AvailableLanguage::Es) {
            Ok(AvailableLanguage::Es)
        } else {
            Err(SqlDecodeError::UnrecognizedVariant)
        },
    }
}

impl AvailableLanguage {
    /// The bytes written to the database for this language.
    pub fn to_sql(&self) -> (r: Vec<u8>)
        ensures
            r@ == language_sql_bytes(*self),
    {
        let mut v: Vec<u8> = Vec::new();
        v.push(101u8);
        match self {
            AvailableLanguage::En => v.push(110u8),
            AvailableLanguage::Es => v.push(115u8),
        }
        assert(v@ =~= language_sql_bytes(*self));
        v
    }

    /// Reads a language from a database column value.
    pub fn from_sql(bytes: Option<&[u8]>) -> (r: Result<AvailableLanguage, SqlDecodeError>)
        ensures
            r == language_from_sql(
                match bytes {
                    Some(b) => Some(b@),
                    None => None,
                },
            ),
    {
        match bytes {
            None => Err(SqlDecodeError::UnexpectedNull),
            Some(b) => {
                if b.len() == 2 && b[0] == 101u8 && b[1] == 110u8 {
                    assert(b@ =~= language_sql_bytes(AvailableLanguage::En));
                    Ok(AvailableLanguage::En)
                } else if b.len() == 2 && b[0] == 101u8 && b[1] == 115u8 {
                    assert(b@ =~= language_sql_bytes(AvailableLanguage::Es));
                    Ok(AvailableLanguage::Es)
                } else {
                    proof {
                        if b@ == language_sql_bytes(AvailableLanguage::En) {
                            assert(b@[0] == 101u8 && b@[1] == 110u8);
                        }
                        if b@ == language_sql_bytes(AvailableLanguage::Es) {
                            assert(b@[0] == 101u8 && b@[1] == 115u8);
                        }
                    }
                    Err(SqlDecodeError::UnrecognizedVariant)
                }
            },
        }
    }
}

/// Reading back what was written gives the same language, and only the bytes
/// written for a language are read as it.
pub proof fn lemma_language_sql_roundtrip(l: AvailableLanguage, b: Seq<u8>)
    ensures
        language_from_sql(Some(language_sql_bytes(l))) == Ok::<AvailableLanguage, SqlDecodeError>(l),
        language_from_sql(Some(b)) == Ok::<AvailableLanguage, SqlDecodeError>(l) ==> b
            == language_sql_bytes(l),
{
    assert(language_sql_bytes(AvailableLanguage::En)[1] != language_sql_bytes(
        AvailableLanguage::Es,
    )[1]);
}

} // verus!
