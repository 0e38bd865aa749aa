//! The configuration document model.
//!
//! A configuration file is parsed by the `toml` crate and reduced, shape by
//! shape, into the plain model below, which is all the resolver ever reads:
//! top-level entries whose values are an integer, a string, an array of
//! tables of string-valued fields, or something else that only warrants a
//! warning. The whole reduction is a function of the text alone, so its
//! result carries a name, `document_of`, that every contract downstream
//! speaks of.

use vstd::prelude::*;

use toml::{Table, Value};

verus! {

/// A top-level configuration value, reduced to the shapes the resolver
/// distinguishes.
pub enum ConfigValue {
    /// An integer entry, as the thread count is written.
    Int(i64),
    /// A string entry, as every path and name is written.
    Str(String),
    /// An array entry, as the permission declarations are written.
    Arr(Vec<TableItem>),
    /// Any other shape; it only draws a warning.
    Other,
}

/// One element of a declaration array.
pub enum TableItem {
    /// A table of named fields.
    Table(Vec<TableField>),
    /// Anything that is not a table.
    NotTable,
}

/// One field of a declaration table.
pub struct TableField {
    /// The field's key.
    pub key: String,
    /// The field's value.
    pub value: FieldValue,
}

/// The value of a declaration field.
pub enum FieldValue {
    /// A string value, the only shape a declaration field may carry.
    Str(String),
    /// Anything else; it still counts toward the field tally.
    Other,
}

/// One top-level entry of a configuration document.
pub struct DocEntry {
    /// The entry's key.
    pub key: String,
    /// The entry's value.
    pub value: ConfigValue,
}

/// What a configuration text parses and reduces to: `None` exactly when
/// the text is not well-formed TOML, otherwise the top-level entries in
/// the parser's order. The result depends on the text alone: the parser
/// is deterministic and its table iterates in sorted key order.
pub uninterp spec fn document_of(s: Seq<char>) -> Option<Seq<DocEntry>>;

/// Whether a configuration text is structurally valid at all.
pub open spec fn toml_ok(s: Seq<char>) -> bool {
    document_of(s) is Some
}

/// Relies on the `FromStr` impl of `toml::Table`, which parses TOML text
/// into a map from keys to values, erring on malformed text; the entries
/// are reduced to the plain model, one match arm per value variant,
/// payloads moved unchanged.
#[verifier::external_body]
fn parse_toml_document(s: &str) -> (r: Option<Vec<DocEntry>>)
    ensures
        match r {
            Some(d) => document_of(s@) == Some(d@),
            None => document_of(s@) is None,
        },
{
    let t: Table = s.parse().ok()?;
    Some(t.into_iter().map(|(key, v)| DocEntry { key, value: match v {
        Value::Integer(i) => ConfigValue::Int(i),
        Value::String(x) => ConfigValue::Str(x),
        Value::Array(a) => ConfigValue::Arr(a.into_iter().map(|e| match e {
            Value::Table(m) => TableItem::Table(m.into_iter().map(|(k, w)| TableField {
                key: k,
                value: match w { Value::String(x) => FieldValue::Str(x), _ => FieldValue::Other },
            }).collect()),
            _ => TableItem::NotTable,
        }).collect()),
        _ => ConfigValue::Other,
    } }).collect())
}

/// Parses configuration text into the plain document model: the document
/// the text names, or nothing exactly when the text is not structurally
/// valid, which callers treat as fatal.
pub fn parse_document(s: &str) -> (r: Option<Vec<DocEntry>>)
    ensures
        r is Some <==> toml_ok(s@),
        match r {
            Some(d) => document_of(s@) == Some(d@),
            None => true,
        },
{
    parse_toml_document(s)
}

} // verus!
