//! Records: the typed values that the daemon's JSON answers stand for.

use crate::json::{document, documents, parse, parsed_document, JsonModel};
use serde_json::Value;
use vstd::prelude::*;
use vstd::string::StringSliceAdditionalSpecFns;
use vstd::utf8::{decode_utf8, encode_utf8_decode_utf8, valid_utf8};

verus! {

/// `core::str::Utf8Error`, the reason why bytes are not UTF-8. Nothing is
/// read off it.
#[verifier::external_type_specification]
#[verifier::external_body]
pub struct ExUtf8Error(core::str::Utf8Error);

/// `core::str::from_utf8`: succeeds on exactly the byte sequences that are
/// valid UTF-8, and the text then consists of those bytes.
pub assume_specification<'a>[ core::str::from_utf8 ](bytes: &'a [u8]) -> (r: Result<
    &'a str,
    core::str::Utf8Error,
>)
    ensures
        r is Ok <==> valid_utf8(bytes@),
        r matches Ok(text) ==> text.spec_bytes() == bytes@,
;

/// Why some bytes or some text could not be decoded into a record.
#[derive(Clone, Copy, Debug, PartialEq, Eq, Structural)]
pub enum DecodeError {
    /// The bytes are not UTF-8 text.
    Encoding,
    /// The text is not one JSON document.
    Syntax,
    /// The document does not have the shape of the record.
    Schema,
}

/// What decoding gives: a record, or the reason why there is none.
pub type DecodedItem<T> = Result<T, DecodeError>;

/// A typed value with a JSON schema.
pub trait Record: Sized + View {
    /// The record that a document stands for, if it has the record's shape.
    spec fn schema(doc: JsonModel) -> Option<Self::V>;

    /// Reads the record off a parsed document.
    fn read(value: &Value) -> (r: Option<Self>)
        ensures
            match r {
                Some(record) => Self::schema(document(*value)) == Some(record@),
                None => Self::schema(document(*value)) is None,
            },
    ;
}

impl Record for String {
    /// A string.
    open spec fn schema(doc: JsonModel) -> Option<Seq<char>> {
        doc.text()
    }

    fn read(value: &Value) -> (r: Option<String>) {
        match value.as_str() {
            Some(text) => Some(text.to_owned()),
            None => None,
        }
    }
}

/// The records that a sequence of documents stands for, if each of them
/// has the record's shape.
pub open spec fn schema_all<T: Record>(docs: Seq<JsonModel>) -> Option<Seq<T::V>> {
    if forall|i: int| 0 <= i < docs.len() ==> (#[trigger] T::schema(docs[i])) is Some {
        Some(Seq::new(docs.len(), |i: int| T::schema(docs[i])->0))
    } else {
        None
    }
}

/// The content of each record of a sequence.
pub open spec fn views<T: View>(records: Seq<T>) -> Seq<T::V> {
    Seq::new(records.len(), |i: int| records[i]@)
}

/// Reads a record off each of some parsed documents.
pub fn read_all<T: Record>(values: &Vec<Value>) -> (r: Option<Vec<T>>)
    ensures
        match r {
            Some(records) => schema_all::<T>(documents(values@)) == Some(views(records@)),
            None => schema_all::<T>(documents(values@)) is None,
        },
{
    let ghost docs = documents(values@);
    let mut records: Vec<T> = Vec::new();
    let mut i: usize = 0;
    while i < values.len()
        invariant
            i <= values.len(),
            docs == documents(values@),
            records.len() == i,
            forall|j: int| 0 <= j < i ==> (#[trigger] T::schema(docs[j])) == Some(records@[j]@),
        decreases values.len() - i,
    {
        match T::read(&values[i]) {
            Some(record) => {
                records.push(record);
            },
            None => {
                assert(T::schema(docs[i as int]) is None);
                return None;
            },
        }
        i += 1;
    }
    Some(records)
}

/// What decoding a text gives: the text is read as one JSON document, the
/// document as a record.
pub open spec fn decoded_text<T: Record>(text: Seq<char>) -> Result<T::V, DecodeError> {
    match parsed_document(text) {
        None => Err(DecodeError::Syntax),
        Some(doc) => match T::schema(doc) {
            Some(record) => Ok(record),
            None => Err(DecodeError::Schema),
        },
    }
}

/// What decoding a chunk of bytes gives: the bytes are read as UTF-8 text,
/// the text is decoded.
pub open spec fn decoded<T: Record>(bytes: Seq<u8>) -> Result<T::V, DecodeError> {
    if valid_utf8(bytes) {
        decoded_text::<T>(decode_utf8(bytes))
    } else {
        Err(DecodeError::Encoding)
    }
}

/// Whether `item` is the outcome `expected`: the same error, or a record
/// with the expected content.
pub open spec fn describes<T: Record>(
    item: DecodedItem<T>,
    expected: Result<T::V, DecodeError>,
) -> bool {
    match item {
        Ok(record) => expected == Ok::<T::V, DecodeError>(record@),
        Err(e) => expected == Err::<T::V, DecodeError>(e),
    }
}

/// Decodes a JSON text into a record.
pub fn decode_text<T: Record>(text: &str) -> (r: DecodedItem<T>)
    ensures
        describes(r, decoded_text::<T>(text@)),
{
    let value = match parse(text) {
        Ok(value) => value,
        Err(_) => {
            return Err(DecodeError::Syntax);
        },
    };
    match T::read(&value) {
        Some(record) => Ok(record),
        None => Err(DecodeError::Schema),
    }
}

/// Decodes a chunk of bytes into a record.
pub fn decode<T: Record>(bytes: &[u8]) -> (r: DecodedItem<T>)
    ensures
        describes(r, decoded::<T>(bytes@)),
{
    match core::str::from_utf8(bytes) {
        Ok(text) => {
            proof {
                encode_utf8_decode_utf8(text@);
            }
            decode_text::<T>(text)
        },
        Err(_) => Err(DecodeError::Encoding),
    }
}

} // verus!
