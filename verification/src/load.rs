//! Loading: the trusted boundary to the external TOML parser, and the one
//! call that takes document text to a validated configuration.

use vstd::prelude::*;

use crate::doc::{doc_view, DocValue, SpecDoc};
use crate::schema::{spec_from_doc, Config, ConfigError, SpecConfig, SpecConfigError};

verus! {

#[verifier::external_type_specification]
#[verifier::external_body]
pub struct ExTomlValue(toml::Value);

/// What parsing configuration text yields, in the library's document
/// model: `Some` view of the value tree when the text is well-formed TOML,
/// `None` when it is not. Parsing is a function of the text alone.
pub uninterp spec fn parse_of(text: Seq<char>) -> Option<SpecDoc>;

/// Relies on toml::Value being a plain tree of strings, integers, floats,
/// booleans, datetimes, arrays and tables: each arm moves one variant's
/// payload into the library's document model, a float as its 64-bit bit
/// pattern and a datetime as its displayed text. Tables keep their pairs
/// in the order the map hands them out, one pair per key.
#[verifier::external_body]
fn doc_of_value(v: toml::Value) -> DocValue {
    match v {
        toml::Value::String(s) => DocValue::Str(s),
        toml::Value::Integer(i) => DocValue::Int(i),
        toml::Value::Float(f) => DocValue::Float(f.to_bits()),
        toml::Value::Boolean(b) => DocValue::Bool(b),
        toml::Value::Datetime(d) => DocValue::Datetime(d.to_string()),
        toml::Value::Array(a) => DocValue::Arr(a.into_iter().map(doc_of_value).collect()),
        toml::Value::Table(t) => DocValue::Table(
            t.into_iter().map(|(k, x)| (k, doc_of_value(x))).collect(),
        ),
    }
}

/// Relies on toml::from_str::<toml::Value>: it parses TOML text into a
/// value tree exactly when the text is a well-formed TOML document, and
/// otherwise reports an error whose message describes the fault. The tree
/// is handed back through the library's document model.
#[verifier::external_body]
fn parse_document(text: &str) -> (r: Result<DocValue, String>)
    ensures
        match r {
            Ok(d) => parse_of(text@) == Some(doc_view(d)),
            Err(_) => parse_of(text@) is None,
        },
{
    match toml::from_str::<toml::Value>(text) {
        Ok(v) => Ok(doc_of_value(v)),
        Err(e) => Err(e.to_string()),
    }
}

impl Config {
    /// Loads a configuration from document text: parse, then validate.
    /// Text that is not structured data at all fails as a malformed
    /// document; everything else is decided by the schema walk alone.
    pub fn load(text: &str) -> (r: Result<Config, ConfigError>)
        ensures
            match parse_of(text@) {
                Some(d) => match r {
                    Ok(c) => spec_from_doc(d) == Ok::<_, SpecConfigError>(c@),
                    Err(e) => spec_from_doc(d) == Err::<SpecConfig, _>(e@),
                },
                None => r matches Err(ConfigError::MalformedDocument(_)),
            },
    {
        match parse_document(text) {
            Ok(doc) => Config::from_doc(&doc),
            Err(msg) => Err(ConfigError::MalformedDocument(msg)),
        }
    }
}

} // verus!
