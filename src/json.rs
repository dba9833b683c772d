//! Decoding of one raw line into the fields that the screens show.
use vstd::prelude::*;

verus! {

/// One field of a decoded JSON object.
pub struct JsonField {
    /// The field's name.
    pub key: String,
    /// The value in compact JSON notation, as the line view shows it.
    pub text: String,
    /// The value as the value screen shows it: the contents of a JSON
    /// string, the JSON notation of anything else.
    pub detail: String,
}

/// What a field is, as plain text.
pub struct FieldView {
    pub key: Seq<char>,
    pub text: Seq<char>,
    pub detail: Seq<char>,
}

impl View for JsonField {
    type V = FieldView;

    open spec fn view(&self) -> FieldView {
        FieldView { key: self.key@, text: self.text@, detail: self.detail@ }
    }
}

/// The fields of a sequence of decoded fields, as plain text.
pub open spec fn fields_view(fields: Seq<JsonField>) -> Seq<FieldView> {
    fields.map_values(|f: JsonField| f@)
}

/// One raw line, decoded.
pub enum JsonLine {
    /// A JSON object, with its fields in the order in which the line holds them.
    Object(Vec<JsonField>),
    /// Any other JSON value, in compact JSON notation.
    Other(String),
    /// Text that is not JSON.
    Malformed,
}

/// A decoded line, as plain text.
pub enum JsonLineView {
    Object(Seq<FieldView>),
    Other(Seq<char>),
    Malformed,
}

impl View for JsonLine {
    type V = JsonLineView;

    open spec fn view(&self) -> JsonLineView {
        match self {
            JsonLine::Object(fields) => JsonLineView::Object(fields_view(fields@)),
            JsonLine::Other(t) => JsonLineView::Other(t@),
            JsonLine::Malformed => JsonLineView::Malformed,
        }
    }
}

/// What serde_json makes of a line of text.
pub uninterp spec fn json_line_of(line: Seq<char>) -> JsonLineView;

/// Relies on `serde_json::from_str` into a `serde_json::Value`, on iterating
/// its object map in insertion order, and on the value's `Display`: the
/// result is a function of the text alone.
#[verifier::external_body]
pub(crate) fn decode_line(line: &str) -> (r: JsonLine)
    ensures
        r@ == json_line_of(line@),
{
    match serde_json::from_str::<serde_json::Value>(line) {
        Ok(serde_json::Value::Object(o)) => {
            let mut fields = Vec::new();
            for (k, v) in &o {
                let detail = match v {
                    serde_json::Value::String(t) => t.clone(),
                    _ => v.to_string(),
                };
                fields.push(JsonField { key: k.clone(), text: v.to_string(), detail });
            }
            JsonLine::Object(fields)
        },
        Ok(v) => JsonLine::Other(v.to_string()),
        Err(_) => JsonLine::Malformed,
    }
}

} // verus!
