//! Per-column rules that rewrite a decoded value before it is inserted.

use crate::json::{
    document_view, is_empty_object, json_bytes_value, json_patch, json_text_value,
    json_value_bytes, json_value_text, merge, parse_bytes, parse_text, render_bytes, render_text,
    well_formed, JsonModel, JsonValue,
};
use crate::value::{Decoded, MysqlValueDecoded};
use vstd::prelude::*;

verus! {

/// A constant as a configuration writes it.
///
/// A number is `Int` where it is a signed 64-bit integer, `UInt` where it
/// is a larger unsigned one, and else `Double`, which holds the IEEE 754
/// bit pattern. Lists, maps and tagged values keep no content: no value can
/// be replaced by one.
#[derive(Debug, PartialEq)]
pub enum Literal {
    Null,
    Bool(bool),
    Int(i64),
    UInt(u64),
    Double(u64),
    String(String),
    Sequence,
    Mapping,
    Tagged,
}

impl Literal {
    /// Whether the literal is null, a truth value, a number or a string.
    pub open spec fn is_scalar(&self) -> bool {
        !(self is Sequence || self is Mapping || self is Tagged)
    }

    /// The value that stands for the literal: a scalar as the variant of
    /// its kind, anything else as `Null`.
    pub open spec fn value(&self) -> Decoded {
        match self {
            Literal::Null => Decoded::Null,
            Literal::Bool(b) => Decoded::Bool(*b),
            Literal::Int(i) => Decoded::Int(*i as int),
            Literal::UInt(u) => Decoded::UInt(*u as nat),
            Literal::Double(bits) => Decoded::Double(*bits),
            Literal::String(s) => Decoded::String(s@),
            Literal::Sequence | Literal::Mapping | Literal::Tagged => Decoded::Null,
        }
    }

    /// The literal of a number, from its three readings: as a signed
    /// integer and as an unsigned one, where it is one, and as a floating
    /// point number.
    pub fn number(signed: Option<i64>, unsigned: Option<u64>, double_bits: u64) -> (literal: Literal)
        ensures
            literal == match signed {
                Some(i) => Literal::Int(i),
                None => match unsigned {
                    Some(u) => Literal::UInt(u),
                    None => Literal::Double(double_bits),
                },
            },
    {
        match signed {
            Some(i) => Literal::Int(i),
            None => match unsigned {
                Some(u) => Literal::UInt(u),
                None => Literal::Double(double_bits),
            },
        }
    }

    /// A decoded value that stands for the literal.
    pub fn to_value(&self) -> (decoded: MysqlValueDecoded)
        ensures
            decoded@ == self.value(),
    {
        match self {
            Literal::Null => MysqlValueDecoded::Null,
            Literal::Bool(b) => MysqlValueDecoded::Bool(*b),
            Literal::Int(i) => MysqlValueDecoded::Int(*i),
            Literal::UInt(u) => MysqlValueDecoded::UInt(*u),
            Literal::Double(bits) => MysqlValueDecoded::Double(*bits),
            Literal::String(s) => MysqlValueDecoded::String(s.clone()),
            Literal::Sequence => MysqlValueDecoded::Null,
            Literal::Mapping => MysqlValueDecoded::Null,
            Literal::Tagged => MysqlValueDecoded::Null,
        }
    }
}

/// Why a transformer left a value as it was.
#[derive(Debug, Clone, Copy, PartialEq, Eq, Structural)]
pub enum TransformError {
    /// The cell does not hold a JSON document.
    InvalidJson,
    /// The patch of the transformer is no JSON document.
    InvalidPatch,
    /// The merged document could not be written.
    Unserializable,
    /// The transformer does not apply to a value of this variant.
    Unsupported,
}

/// A rule for the values of one column.
#[derive(Debug, PartialEq)]
pub enum Transformer {
    /// Puts a constant in the place of every value.
    Replace(Literal),
    /// Merges a JSON document, given as text, into the JSON document that
    /// a string or a byte string holds.
    JsonMerge(String),
    /// Puts `Null` in the place of every value.
    Nullify,
}

/// The merge of a patch into a cell, from what the reading of each gave.
pub open spec fn merge_outcome(cell: Option<JsonModel>, patch: Option<JsonModel>) -> Result<
    JsonModel,
    TransformError,
> {
    match cell {
        None => Err(TransformError::InvalidJson),
        Some(target) => match patch {
            None => Err(TransformError::InvalidPatch),
            Some(added) => Ok(merge(target, added)),
        },
    }
}

/// Whether a patch, as it was read, is an object without members: one that
/// changes no document.
pub open spec fn changes_nothing(patch: Option<JsonModel>) -> bool {
    patch matches Some(added) && is_empty_object(added)
}

/// A text cell after the merge of a patch, and why it is unchanged where
/// the merge could not be made. A patch without members leaves the cell as
/// it is, character for character; any other merge is written out anew.
pub open spec fn merged_text(cell: Seq<char>, patch: Seq<char>) -> (
    Seq<char>,
    Option<TransformError>,
) {
    match merge_outcome(json_text_value(cell), json_text_value(patch)) {
        Err(e) => (cell, Some(e)),
        Ok(merged) => if changes_nothing(json_text_value(patch)) {
            (cell, None)
        } else {
            match json_value_text(merged) {
                Some(text) => (text, None),
                None => (cell, Some(TransformError::Unserializable)),
            }
        },
    }
}

/// A binary cell after the merge of a patch, and why it is unchanged where
/// the merge could not be made. A patch without members leaves the cell as
/// it is, byte for byte; any other merge is written out anew.
pub open spec fn merged_bytes(cell: Seq<u8>, patch: Seq<char>) -> (
    Seq<u8>,
    Option<TransformError>,
) {
    match merge_outcome(json_bytes_value(cell), json_text_value(patch)) {
        Err(e) => (cell, Some(e)),
        Ok(merged) => if changes_nothing(json_text_value(patch)) {
            (cell, None)
        } else {
            match json_value_bytes(merged) {
                Some(bytes) => (bytes, None),
                None => (cell, Some(TransformError::Unserializable)),
            }
        },
    }
}

/// Whether a patch that was read is an object without members.
pub fn patch_changes_nothing(patch: &Option<JsonValue>) -> (nothing: bool)
    ensures
        nothing == changes_nothing(document_view(*patch)),
{
    match patch {
        Some(added) => added.is_empty_object(),
        None => false,
    }
}

/// Merges the patch into the cell where both were read as documents.
pub fn merge_documents(cell: Option<JsonValue>, patch: Option<JsonValue>) -> (r: Result<
    JsonValue,
    TransformError,
>)
    ensures
        match merge_outcome(document_view(cell), document_view(patch)) {
            Ok(merged) => r matches Ok(tree) && tree@ == merged,
            Err(e) => r matches Err(err) && err == e,
        },
        (cell matches Some(target) && well_formed(target@)) && (patch matches Some(added)
            && well_formed(added@)) ==> (r matches Ok(tree) && well_formed(tree@)),
{
    match cell {
        None => Err(TransformError::InvalidJson),
        Some(mut target) => match patch {
            None => Err(TransformError::InvalidPatch),
            Some(added) => {
                json_patch(&mut target, added);
                Ok(target)
            },
        },
    }
}

/// A text cell with the patch merged into it.
fn merge_into_text(cell: String, patch: &str) -> (r: (String, Option<TransformError>))
    ensures
        (r.0@, r.1) == merged_text(cell@, patch@),
        r.1 is Some || changes_nothing(json_text_value(patch@)) ==> r.0 == cell,
{
    let read = parse_text(cell.as_str());
    let read_patch = parse_text(patch);
    let nothing = patch_changes_nothing(&read_patch);
    match merge_documents(read, read_patch) {
        Err(e) => (cell, Some(e)),
        Ok(merged) => if nothing {
            (cell, None)
        } else {
            match render_text(merged) {
                Some(text) => (text, None),
                None => (cell, Some(TransformError::Unserializable)),
            }
        },
    }
}

/// A binary cell with the patch merged into it.
fn merge_into_bytes(cell: Vec<u8>, patch: &str) -> (r: (Vec<u8>, Option<TransformError>))
    ensures
        (r.0@, r.1) == merged_bytes(cell@, patch@),
        r.1 is Some || changes_nothing(json_text_value(patch@)) ==> r.0 == cell,
{
    let read = parse_bytes(cell.as_slice());
    let read_patch = parse_text(patch);
    let nothing = patch_changes_nothing(&read_patch);
    match merge_documents(read, read_patch) {
        Err(e) => (cell, Some(e)),
        Ok(merged) => if nothing {
            (cell, None)
        } else {
            match render_bytes(merged) {
                Some(bytes) => (bytes, None),
                None => (cell, Some(TransformError::Unserializable)),
            }
        },
    }
}

impl Transformer {
    /// The value that the transformer makes of `value`.
    ///
    /// `Replace` and `Nullify` do not look at it. `JsonMerge` rewrites a
    /// string as a string and a byte string as a byte string, and leaves
    /// every other value, and every cell that it cannot merge, as it is.
    pub open spec fn transformed(&self, value: Decoded) -> Decoded {
        match self {
            Transformer::Replace(literal) => literal.value(),
            Transformer::Nullify => Decoded::Null,
            Transformer::JsonMerge(patch) => match value {
                Decoded::String(cell) => Decoded::String(merged_text(cell, patch@).0),
                Decoded::Bytes(cell) => Decoded::Bytes(merged_bytes(cell, patch@).0),
                _ => value,
            },
        }
    }

    /// Why the transformer left `value` as it was, `None` where it applied.
    pub open spec fn warning(&self, value: Decoded) -> Option<TransformError> {
        match self {
            Transformer::Replace(_) => None,
            Transformer::Nullify => None,
            Transformer::JsonMerge(patch) => match value {
                Decoded::String(cell) => merged_text(cell, patch@).1,
                Decoded::Bytes(cell) => merged_bytes(cell, patch@).1,
                _ => Some(TransformError::Unsupported),
            },
        }
    }

    /// Applies the transformer, and says why where it left the value as it
    /// was. It never fails: a value that it cannot rewrite comes back
    /// unchanged, with the reason.
    pub fn try_transform(&self, value: MysqlValueDecoded) -> (r: (
        MysqlValueDecoded,
        Option<TransformError>,
    ))
        ensures
            r.0@ == self.transformed(value@),
            r.1 == self.warning(value@),
            r.1 is Some ==> r.0 == value,
            self matches Transformer::JsonMerge(patch) && changes_nothing(json_text_value(patch@))
                ==> r.0 == value,
    {
        match self {
            Transformer::Replace(literal) => (literal.to_value(), None),
            Transformer::Nullify => (MysqlValueDecoded::Null, None),
            Transformer::JsonMerge(patch) => match value {
                MysqlValueDecoded::String(cell) => {
                    let (text, warning) = merge_into_text(cell, patch.as_str());
                    (MysqlValueDecoded::String(text), warning)
                },
                MysqlValueDecoded::Bytes(cell) => {
                    let (bytes, warning) = merge_into_bytes(cell, patch.as_str());
                    (MysqlValueDecoded::Bytes(bytes), warning)
                },
                other => (other, Some(TransformError::Unsupported)),
            },
        }
    }

    /// Applies the transformer to a value.
    pub fn transform(&self, value: MysqlValueDecoded) -> (r: MysqlValueDecoded)
        ensures
            r@ == self.transformed(value@),
            self is Nullify ==> r@ == Decoded::Null,
            self matches Transformer::Replace(literal) ==> r@ == literal.value(),
            self.warning(value@) is Some ==> r == value,
            self matches Transformer::JsonMerge(patch) && changes_nothing(json_text_value(patch@))
                ==> r == value,
    {
        self.try_transform(value).0
    }
}

/// `Nullify` makes `Null` of every value.
pub proof fn lemma_nullify(value: Decoded)
    ensures
        Transformer::Nullify.transformed(value) == Decoded::Null,
        Transformer::Nullify.warning(value) is None,
{
}

/// `Replace` gives the value of its literal whatever the input is: of a
/// scalar the variant of its kind with the same content.
pub proof fn lemma_replace_ignores_input(literal: Literal, first: Decoded, second: Decoded)
    ensures
        Transformer::Replace(literal).transformed(first) == Transformer::Replace(
            literal,
        ).transformed(second),
        Transformer::Replace(literal).transformed(first) == literal.value(),
        literal is Null ==> literal.value() is Null,
        literal matches Literal::Bool(b) ==> literal.value() == Decoded::Bool(b),
        literal matches Literal::Int(i) ==> literal.value() == Decoded::Int(i as int),
        literal matches Literal::UInt(u) ==> literal.value() == Decoded::UInt(u as nat),
        literal matches Literal::Double(bits) ==> literal.value() == Decoded::Double(bits),
        literal matches Literal::String(s) ==> literal.value() == Decoded::String(s@),
        !literal.is_scalar() ==> literal.value() is Null,
{
}

/// A cell that holds no JSON document, and every cell where the patch is
/// none, passes a JSON transformer unchanged, with a warning.
pub proof fn lemma_malformed_json_unchanged(patch: String, value: Decoded)
    requires
        match value {
            Decoded::String(cell) => json_text_value(cell) is None || json_text_value(patch@)
                is None,
            Decoded::Bytes(cell) => json_bytes_value(cell) is None || json_text_value(patch@)
                is None,
            _ => false,
        },
    ensures
        Transformer::JsonMerge(patch).transformed(value) == value,
        Transformer::JsonMerge(patch).warning(value) is Some,
{
}

/// A value that is neither a string nor a byte string passes a JSON
/// transformer unchanged, with a warning.
pub proof fn lemma_json_merge_other_variants(patch: String, value: Decoded)
    requires
        !(value is String),
        !(value is Bytes),
    ensures
        Transformer::JsonMerge(patch).transformed(value) == value,
        Transformer::JsonMerge(patch).warning(value) == Some(TransformError::Unsupported),
{
}

/// A JSON transformer whose patch is an object without members leaves
/// every value as it is: a cell that holds a document, be it an object or
/// not, a cell that holds none, and a value of any other variant.
pub proof fn lemma_merge_empty_patch(patch: String, value: Decoded)
    requires
        changes_nothing(json_text_value(patch@)),
    ensures
        Transformer::JsonMerge(patch).transformed(value) == value,
{
}

} // verus!
