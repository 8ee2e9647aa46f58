//! Runtime values.
//!
//! A [`Value`] is what an expression produces when it is evaluated. Its model,
//! [`ValueView`], holds the same data as mathematical values.

use vstd::prelude::*;
use vstd::string::StrSliceExecFns;
use vstd::string::StringExecFns;
use vstd::string::StringSliceAdditionalSpecFns;
use vstd::utf8::{decode_utf8, encode_utf8, valid_utf8};
use crate::kind::{only, Kind, Shape};
use crate::numeral::{integer_string, integer_text};

verus! {

/// A runtime value.
#[derive(Debug, PartialEq, Eq)]
pub enum Value {
    /// A string, held as its bytes; they need not be valid UTF-8.
    Bytes(Vec<u8>),
    /// A signed integer.
    Integer(i64),
    /// A boolean.
    Boolean(bool),
    /// No value.
    Null,
}

/// The model of a [`Value`].
pub enum ValueView {
    Bytes(Seq<u8>),
    Integer(i64),
    Boolean(bool),
    Null,
}

impl ValueView {
    /// The shape of the value.
    pub open spec fn shape(self) -> Shape {
        match self {
            ValueView::Bytes(_) => Shape::Bytes,
            ValueView::Integer(_) => Shape::Integer,
            ValueView::Boolean(_) => Shape::Boolean,
            ValueView::Null => Shape::Null,
        }
    }

    /// The string whose characters are `text`.
    pub open spec fn of_text(text: Seq<char>) -> ValueView {
        ValueView::Bytes(encode_utf8(text))
    }
}

impl View for Value {
    type V = ValueView;

    open spec fn view(&self) -> ValueView {
        match self {
            Value::Bytes(bytes) => ValueView::Bytes(bytes@),
            Value::Integer(number) => ValueView::Integer(*number),
            Value::Boolean(flag) => ValueView::Boolean(*flag),
            Value::Null => ValueView::Null,
        }
    }
}

/// A value that does not have the shape that an operation needs.
#[derive(Clone, Copy, Debug, PartialEq, Eq, Structural)]
pub enum ValueError {
    /// The operation needs a value of kind `expected` and was given one of
    /// kind `got`.
    Expected { got: Kind, expected: Kind },
}

/// The text that `String::from_utf8_lossy` makes of `bytes`: the characters
/// of the valid parts, with U+FFFD in place of each invalid sequence.
pub uninterp spec fn utf8_lossy(bytes: Seq<u8>) -> Seq<char>;

/// The text that a string value stands for: the decoding of its bytes where
/// they are valid UTF-8, else their lossy conversion.
pub open spec fn lossy_text(bytes: Seq<u8>) -> Seq<char> {
    if valid_utf8(bytes) {
        decode_utf8(bytes)
    } else {
        utf8_lossy(bytes)
    }
}

/// Calls `String::from_utf8_lossy` and takes ownership of the text.
///
/// Not proved, but taken from the documentation of that function: the text
/// depends on the bytes alone, which [`utf8_lossy`] names, and where the
/// bytes are valid UTF-8 it is the string that they encode.
#[verifier::external_body]
fn lossy_string(bytes: &Vec<u8>) -> (text: String)
    ensures
        text@ == utf8_lossy(bytes@),
        valid_utf8(bytes@) ==> text@ == decode_utf8(bytes@),
{
    String::from_utf8_lossy(bytes).into_owned()
}

/// The text of a string value never fails to be read back: a value made from
/// `text` stands for `text`.
pub proof fn lemma_lossy_text_of_encoded(text: Seq<char>)
    ensures
        lossy_text(encode_utf8(text)) == text,
{
    vstd::utf8::encode_utf8_valid_utf8(text);
    vstd::utf8::encode_utf8_decode_utf8(text);
}

impl ValueView {
    /// The value as it is written in a program: a string between double
    /// quotes, an integer as its decimal numeral, `true`, `false`, `null`.
    pub open spec fn text(self) -> Seq<char> {
        match self {
            ValueView::Bytes(bytes) => "\""@ + lossy_text(bytes) + "\""@,
            ValueView::Integer(number) => integer_text(number as int),
            ValueView::Boolean(flag) => if flag {
                "true"@
            } else {
                "false"@
            },
            ValueView::Null => "null"@,
        }
    }
}

impl Clone for Value {
    fn clone(&self) -> (copy: Value)
        ensures
            copy@ == self@,
    {
        match self {
            Value::Bytes(bytes) => {
                let copy = bytes.clone();
                assert(copy@ =~= bytes@);
                Value::Bytes(copy)
            },
            Value::Integer(number) => Value::Integer(*number),
            Value::Boolean(flag) => Value::Boolean(*flag),
            Value::Null => Value::Null,
        }
    }
}

impl Value {
    /// The string value that holds `text`.
    pub fn from_text(text: &str) -> (value: Value)
        ensures
            value@ == ValueView::of_text(text@),
    {
        Value::Bytes(text.as_bytes_vec())
    }

    /// The shape of this value.
    pub fn shape(&self) -> (shape: Shape)
        ensures
            shape == self@.shape(),
    {
        match self {
            Value::Bytes(_) => Shape::Bytes,
            Value::Integer(_) => Shape::Integer,
            Value::Boolean(_) => Shape::Boolean,
            Value::Null => Shape::Null,
        }
    }

    /// The kind that holds the shape of this value and no other.
    pub fn kind(&self) -> (kind: Kind)
        ensures
            kind@ == only(self@.shape()),
    {
        Kind::exact(self.shape())
    }

    /// The value as it is written in a program.
    pub fn display(&self) -> (text: String)
        ensures
            text@ == self@.text(),
    {
        match self {
            Value::Bytes(bytes) => String::from_str("\"").concat(
                lossy_string(bytes).as_str(),
            ).concat("\""),
            Value::Integer(number) => integer_string(*number),
            Value::Boolean(flag) => if *flag {
                String::from_str("true")
            } else {
                String::from_str("false")
            },
            Value::Null => String::from_str("null"),
        }
    }

    /// The text of a string value, with U+FFFD in place of each byte
    /// sequence that is not valid UTF-8. A value of another shape is
    /// refused, with its kind.
    pub fn try_bytes_utf8_lossy(&self) -> (converted: Result<String, ValueError>)
        ensures
            match self@ {
                ValueView::Bytes(bytes) => converted matches Ok(text) && text@ == lossy_text(
                    bytes,
                ),
                _ => converted matches Err(ValueError::Expected { got, expected }) && got@ == only(
                    self@.shape(),
                ) && expected@ == only(Shape::Bytes),
            },
    {
        match self {
            Value::Bytes(bytes) => Ok(lossy_string(bytes)),
            _ => Err(ValueError::Expected { got: self.kind(), expected: Kind::bytes() }),
        }
    }
}

} // verus!
