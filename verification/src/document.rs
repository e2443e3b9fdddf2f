//! A parsed TOML document, as the `toml` crate holds it, and the few
//! questions the configuration asks of it.

use vstd::prelude::*;

verus! {

/// `toml::Value`: a value of a TOML document, carried as it is.
#[verifier::external_type_specification]
#[verifier::external_body]
pub struct ExValue(toml::Value);

/// `toml::de::Error`: why a text is no TOML document.
#[verifier::external_type_specification]
#[verifier::external_body]
pub struct ExSyntaxError(toml::de::Error);

/// The table that a text parses to as a TOML document; `None` where the
/// text is not TOML.
pub uninterp spec fn toml_document(text: Seq<char>) -> Option<toml::Value>;

/// The value under `key` in a table; `None` where the value is no table or
/// the table has no such key.
pub uninterp spec fn entry(value: toml::Value, key: Seq<char>) -> Option<toml::Value>;

/// The text of a string value; `None` for a value of another type.
pub uninterp spec fn text_of(value: toml::Value) -> Option<Seq<char>>;

/// The number of an integer value; `None` for a value of another type.
pub uninterp spec fn integer_of(value: toml::Value) -> Option<i64>;

/// The elements of an array value, in order; `None` for a value of
/// another type.
pub uninterp spec fn items_of(value: toml::Value) -> Option<Seq<toml::Value>>;

/// `<toml::Table as FromStr>::from_str`: parses a text as a TOML document.
/// The table comes back as the table variant of `toml::Value`.
#[verifier::external_body]
pub(crate) fn parse_document(text: &str) -> (parsed: Result<toml::Value, toml::de::Error>)
    ensures
        parsed is Ok <==> toml_document(text@) is Some,
        parsed matches Ok(document) ==> toml_document(text@) == Some(document),
{
    text.parse::<toml::Table>().map(toml::Value::Table)
}

/// `toml::Value::get` with a text key: the value under that key of a table.
#[verifier::external_body]
pub(crate) fn get_entry<'a>(value: &'a toml::Value, key: &str) -> (found: Option<&'a toml::Value>)
    ensures
        found is Some <==> entry(*value, key@) is Some,
        found matches Some(inner) ==> entry(*value, key@) == Some(*inner),
{
    value.get(key)
}

/// `toml::Value::as_str`: the text of a string value.
#[verifier::external_body]
pub(crate) fn as_text<'a>(value: &'a toml::Value) -> (text: Option<&'a str>)
    ensures
        text is Some <==> text_of(*value) is Some,
        text matches Some(t) ==> text_of(*value) == Some(t@),
{
    value.as_str()
}

/// `toml::Value::as_integer`: the number of an integer value.
#[verifier::external_body]
pub(crate) fn as_integer(value: &toml::Value) -> (number: Option<i64>)
    ensures
        number == integer_of(*value),
{
    value.as_integer()
}

/// `toml::Value::as_array`: the elements of an array value.
#[verifier::external_body]
pub(crate) fn as_items<'a>(value: &'a toml::Value) -> (items: Option<&'a Vec<toml::Value>>)
    ensures
        items is Some <==> items_of(*value) is Some,
        items matches Some(list) ==> items_of(*value) == Some(list@),
{
    value.as_array()
}

} // verus!
