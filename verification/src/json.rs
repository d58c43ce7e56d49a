//! JSON values: reading the members of a command object, filling a status object, and the text
//! of either, all through `serde_json`.
use vstd::prelude::*;

verus! {

/// The JSON value of `serde_json`.
#[verifier::external_type_specification]
#[verifier::external_body]
pub struct ExValue(serde_json::Value);

/// The JSON number of `serde_json`.
#[verifier::external_type_specification]
#[verifier::external_body]
pub struct ExNumber(serde_json::Number);

/// The error of `serde_json`.
#[verifier::external_type_specification]
#[verifier::external_body]
pub struct ExJsonError(serde_json::Error);

/// The key-value map of `serde_json`.
#[verifier::external_type_specification]
#[verifier::external_body]
#[verifier::reject_recursive_types(K)]
#[verifier::reject_recursive_types(V)]
pub struct ExJsonMap<K, V>(serde_json::Map<K, V>);

/// A member of a JSON object, as far as a command reads it.
#[derive(Debug, Clone)]
pub enum JsonField {
    Null,
    Bool(bool),
    /// A number: its value where it is an integer in the `i64` range, and the bits of its value as
    /// a double.
    Number { integer: Option<i64>, double: Option<u64> },
    Text(String),
    Array,
    Object,
}

/// What a [`JsonField`] holds.
pub enum FieldView {
    Null,
    Bool(bool),
    Number { integer: Option<i64>, double: Option<u64> },
    Text(Seq<char>),
    Array,
    Object,
}

impl View for JsonField {
    type V = FieldView;

    open spec fn view(&self) -> FieldView {
        match *self {
            JsonField::Null => FieldView::Null,
            JsonField::Bool(b) => FieldView::Bool(b),
            JsonField::Number { integer, double } => FieldView::Number { integer, double },
            JsonField::Text(s) => FieldView::Text(s@),
            JsonField::Array => FieldView::Array,
            JsonField::Object => FieldView::Object,
        }
    }
}

/// What an optional [`JsonField`] holds.
pub open spec fn field_view(field: Option<JsonField>) -> Option<FieldView> {
    match field {
        Some(f) => Some(f@),
        None => None,
    }
}

/// The members of a JSON object by key, or `None` for a JSON value that is no object.
pub uninterp spec fn object_fields(value: serde_json::Value) -> Option<Map<Seq<char>, FieldView>>;

/// What `serde_json` makes of `bytes` as a JSON document: the members of its object (`None` for a
/// document that is no object), or the text of the parse error.
pub uninterp spec fn parsed_document(bytes: Seq<u8>) -> Result<
    Option<Map<Seq<char>, FieldView>>,
    Seq<char>,
>;

/// `serde_json::from_slice` into a JSON value. The outcome is a function of the bytes alone:
/// the value, or an error, which is turned into its text.
#[verifier::external_body]
pub(crate) fn parse_json(bytes: &[u8]) -> (parsed: Result<serde_json::Value, String>)
    ensures
        (match parsed {
            Ok(value) => parsed_document(bytes@) == Ok::<_, Seq<char>>(object_fields(value)),
            Err(text) => parsed_document(bytes@) == Err::<Option<Map<Seq<char>, FieldView>>, _>(
                text@,
            ),
        }),
{
    serde_json::from_slice(bytes).map_err(|err| err.to_string())
}

/// `serde_json::Value::is_object`: whether the value is a JSON object.
#[verifier::external_body]
pub(crate) fn is_object(value: &serde_json::Value) -> (yes: bool)
    ensures
        yes == (object_fields(*value) is Some),
{
    value.is_object()
}

/// `serde_json::Value::get` with a string key: the member of an object under that key, or `None`
/// where the object lacks the key. A number is read by `Number::as_i64` and `Number::as_f64`,
/// of which the bits are handed on.
#[verifier::external_body]
pub(crate) fn object_field(value: &serde_json::Value, key: &str) -> (field: Option<JsonField>)
    requires
        object_fields(*value) is Some,
    ensures
        field_view(field) == object_fields(*value)->0.get(key@),
{
    match value.get(key) {
        None => None,
        Some(serde_json::Value::Null) => Some(JsonField::Null),
        Some(serde_json::Value::Bool(b)) => Some(JsonField::Bool(*b)),
        Some(serde_json::Value::Number(n)) => Some(
            JsonField::Number { integer: n.as_i64(), double: n.as_f64().map(|f| f.to_bits()) },
        ),
        Some(serde_json::Value::String(s)) => Some(JsonField::Text(s.clone())),
        Some(serde_json::Value::Array(_)) => Some(JsonField::Array),
        Some(serde_json::Value::Object(_)) => Some(JsonField::Object),
    }
}

/// What a JSON value is, as far as values are made here.
pub enum JsonEntry {
    Null,
    Bool(bool),
    Number(serde_json::Number),
    Text(Seq<char>),
    /// An array of strings.
    Texts(Seq<Seq<char>>),
    /// An object, by key.
    Object(Map<Seq<char>, JsonEntry>),
}

/// The JSON number of an integer.
pub uninterp spec fn integer_number(value: int) -> serde_json::Number;

/// `serde_json::Number::from` of an `i64`. The number is a function of the integer.
#[verifier::external_body]
fn signed_number(value: i64) -> (number: serde_json::Number)
    ensures
        number == integer_number(value as int),
{
    serde_json::Number::from(value)
}

/// `serde_json::Number::from` of a `u64`. It is the number that an `i64` of the same value gives.
#[verifier::external_body]
fn unsigned_number(value: u64) -> (number: serde_json::Number)
    ensures
        number == integer_number(value as int),
{
    serde_json::Number::from(value)
}

/// The JSON number of the double with a whole value.
pub uninterp spec fn double_number(value: int) -> serde_json::Number;

/// `serde_json::Number::from_f64` of the double with the value `value`. There is a number for every
/// finite double, and it is a function of the value.
#[verifier::external_body]
fn whole_double(value: u16) -> (number: Option<serde_json::Number>)
    ensures
        number == Some(double_number(value as int)),
{
    serde_json::Number::from_f64(value.into())
}

/// What a JSON value is.
pub uninterp spec fn json_entry(value: serde_json::Value) -> JsonEntry;

/// `serde_json::Value::Null`: JSON `null`.
#[verifier::external_body]
fn null_value() -> (value: serde_json::Value)
    ensures
        json_entry(value) == JsonEntry::Null,
{
    serde_json::Value::Null
}

/// `serde_json::Value::Bool`: a JSON boolean.
#[verifier::external_body]
fn bool_value(v: bool) -> (value: serde_json::Value)
    ensures
        json_entry(value) == JsonEntry::Bool(v),
{
    serde_json::Value::Bool(v)
}

/// `serde_json::Value::Number`: a given JSON number.
#[verifier::external_body]
fn number_value(v: &serde_json::Number) -> (value: serde_json::Value)
    ensures
        json_entry(value) == JsonEntry::Number(*v),
{
    serde_json::Value::Number(v.clone())
}

/// `serde_json::Value::from` of a `&str`: a JSON string.
#[verifier::external_body]
fn text_value(v: &str) -> (value: serde_json::Value)
    ensures
        json_entry(value) == JsonEntry::Text(v@),
{
    serde_json::Value::from(v)
}

/// What a list of strings holds.
pub open spec fn texts_view(texts: Seq<String>) -> Seq<Seq<char>> {
    texts.map_values(|s: String| s@)
}

/// `serde_json::Value::from` of a vector of strings: a JSON array of these strings.
#[verifier::external_body]
fn texts_value(v: Vec<String>) -> (value: serde_json::Value)
    ensures
        json_entry(value) == JsonEntry::Texts(texts_view(v@)),
{
    serde_json::Value::from(v)
}

/// The members of a `serde_json` map, by key.
pub uninterp spec fn object_entries(
    map: serde_json::Map<String, serde_json::Value>,
) -> Map<Seq<char>, JsonEntry>;

/// No members.
pub open spec fn no_entries() -> Map<Seq<char>, JsonEntry> {
    Map::empty()
}

/// `serde_json::Map::new`: a map without members.
#[verifier::external_body]
pub(crate) fn new_object() -> (created: serde_json::Map<String, serde_json::Value>)
    ensures
        object_entries(created) == no_entries(),
{
    serde_json::Map::new()
}

/// `serde_json::Map::insert`: puts a value under `key`, in place of what stood there.
#[verifier::external_body]
fn insert_member(
    map: &mut serde_json::Map<String, serde_json::Value>,
    key: &str,
    value: serde_json::Value,
)
    ensures
        object_entries(*final(map)) == object_entries(*old(map)).insert(key@, json_entry(value)),
{
    map.insert(key.to_string(), value);
}

/// `serde_json::Value::Object`: the JSON object with the members of a map.
#[verifier::external_body]
pub(crate) fn object_value(
    map: serde_json::Map<String, serde_json::Value>,
) -> (value: serde_json::Value)
    ensures
        json_entry(value) == JsonEntry::Object(object_entries(map)),
{
    serde_json::Value::Object(map)
}

/// Puts `null` under `key`.
pub(crate) fn put_null(map: &mut serde_json::Map<String, serde_json::Value>, key: &str)
    ensures
        object_entries(*final(map)) == object_entries(*old(map)).insert(key@, JsonEntry::Null),
{
    insert_member(map, key, null_value());
}

/// Puts a boolean under `key`.
pub(crate) fn put_bool(map: &mut serde_json::Map<String, serde_json::Value>, key: &str, v: bool)
    ensures
        object_entries(*final(map)) == object_entries(*old(map)).insert(key@, JsonEntry::Bool(v)),
{
    insert_member(map, key, bool_value(v));
}

/// The JSON value of an integer.
pub open spec fn int_entry(value: int) -> JsonEntry {
    JsonEntry::Number(integer_number(value))
}

/// Puts an integer under `key`.
pub(crate) fn put_int(map: &mut serde_json::Map<String, serde_json::Value>, key: &str, v: i64)
    ensures
        object_entries(*final(map)) == object_entries(*old(map)).insert(key@, int_entry(v as int)),
{
    insert_member(map, key, number_value(&signed_number(v)));
}

/// Puts an integer under `key`.
pub(crate) fn put_uint(map: &mut serde_json::Map<String, serde_json::Value>, key: &str, v: u64)
    ensures
        object_entries(*final(map)) == object_entries(*old(map)).insert(key@, int_entry(v as int)),
{
    insert_member(map, key, number_value(&unsigned_number(v)));
}

/// The JSON value of an optional number: the number, or `null`.
pub open spec fn number_entry(number: Option<serde_json::Number>) -> JsonEntry {
    match number {
        Some(n) => JsonEntry::Number(n),
        None => JsonEntry::Null,
    }
}

/// Puts an optional number under `key`, `null` where there is none.
pub(crate) fn put_optional_number(
    map: &mut serde_json::Map<String, serde_json::Value>,
    key: &str,
    number: &Option<serde_json::Number>,
)
    ensures
        object_entries(*final(map)) == object_entries(*old(map)).insert(key@, number_entry(*number)),
{
    match number {
        Some(n) => insert_member(map, key, number_value(n)),
        None => put_null(map, key),
    }
}

/// The JSON value of the double with a whole value.
pub open spec fn whole_entry(value: int) -> JsonEntry {
    JsonEntry::Number(double_number(value))
}

/// Puts the double with the value `v` under `key`.
pub(crate) fn put_whole_real(
    map: &mut serde_json::Map<String, serde_json::Value>,
    key: &str,
    v: u16,
)
    ensures
        object_entries(*final(map)) == object_entries(*old(map)).insert(key@, whole_entry(v as int)),
{
    put_optional_number(map, key, &whole_double(v));
}

/// Puts a string under `key`.
pub(crate) fn put_text(map: &mut serde_json::Map<String, serde_json::Value>, key: &str, v: &str)
    ensures
        object_entries(*final(map)) == object_entries(*old(map)).insert(key@, JsonEntry::Text(v@)),
{
    insert_member(map, key, text_value(v));
}

/// Puts an array of strings under `key`.
pub(crate) fn put_texts(
    map: &mut serde_json::Map<String, serde_json::Value>,
    key: &str,
    v: Vec<String>,
)
    ensures
        object_entries(*final(map)) == object_entries(*old(map)).insert(
            key@,
            JsonEntry::Texts(texts_view(v@)),
        ),
{
    insert_member(map, key, texts_value(v));
}

/// Puts an object under `key`.
pub(crate) fn put_object(
    map: &mut serde_json::Map<String, serde_json::Value>,
    key: &str,
    v: serde_json::Map<String, serde_json::Value>,
)
    ensures
        object_entries(*final(map)) == object_entries(*old(map)).insert(
            key@,
            JsonEntry::Object(object_entries(v)),
        ),
{
    insert_member(map, key, object_value(v));
}

/// The compact JSON text that `serde_json` gives an object with these members, or `None` where it
/// fails.
pub uninterp spec fn object_text(entries: Map<Seq<char>, JsonEntry>) -> Option<Seq<char>>;

/// `serde_json::to_string` of a JSON object. The text, and whether there is one, is a function of
/// the members alone: an object keeps its members sorted by key.
#[verifier::external_body]
pub(crate) fn print_object(
    value: &serde_json::Value,
) -> (printed: Result<String, serde_json::Error>)
    requires
        json_entry(*value) is Object,
    ensures
        (match printed {
            Ok(text) => object_text(json_entry(*value)->Object_0) == Some(text@),
            Err(_) => object_text(json_entry(*value)->Object_0) is None,
        }),
{
    serde_json::to_string(value)
}

/// A JSON entry of a number is that number, and one of a list of strings holds the strings in their
/// order. A number that is not there is `null`.
pub proof fn law_entries(value: int, number: serde_json::Number, texts: Seq<String>, i: int)
    requires
        0 <= i < texts.len(),
    ensures
        int_entry(value) == JsonEntry::Number(integer_number(value)),
        whole_entry(value) == JsonEntry::Number(double_number(value)),
        number_entry(Some(number)) == JsonEntry::Number(number),
        number_entry(None) == JsonEntry::Null,
        texts_view(texts).len() == texts.len(),
        texts_view(texts)[i] == texts[i]@,
        no_entries() == Map::<Seq<char>, JsonEntry>::empty(),
{
}

/// A member is seen as what it is.
pub proof fn law_field_views(b: bool, integer: Option<i64>, double: Option<u64>, text: String)
    ensures
        field_view(None) is None,
        field_view(Some(JsonField::Null)) == Some(FieldView::Null),
        field_view(Some(JsonField::Bool(b))) == Some(FieldView::Bool(b)),
        field_view(Some(JsonField::Number { integer, double })) == Some(
            FieldView::Number { integer, double },
        ),
        field_view(Some(JsonField::Text(text))) == Some(FieldView::Text(text@)),
        field_view(Some(JsonField::Array)) == Some(FieldView::Array),
        field_view(Some(JsonField::Object)) == Some(FieldView::Object),
{
}

} // verus!
