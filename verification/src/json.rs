//! JSON documents as plain values, read with `serde_json`.
use crate::text;
use vstd::prelude::*;

verus! {

/// A JSON document, as `serde_json` holds it.
#[verifier::external_type_specification]
#[verifier::external_body]
pub struct ExValue(serde_json::Value);

/// A double-precision number, carried by its bits.
#[derive(Debug, Clone, Copy, PartialEq, Eq, Structural)]
pub struct Double {
    pub bits: u64,
}

/// The bits of the double-precision number 0.
pub const ZERO_BITS: u64 = 0;

/// The bits of the double-precision number 1.
pub const ONE_BITS: u64 = 0x3ff0_0000_0000_0000;

/// The bits of the double-precision infinity; those of every other number that is not
/// negative are smaller, in the order of the numbers.
pub const INFINITY_BITS: u64 = 0x7ff0_0000_0000_0000;

/// The bits of the double-precision number -0.
pub const NEGATIVE_ZERO_BITS: u64 = 0x8000_0000_0000_0000;

/// The bits of the negative infinity; those of every other number below 0 lie between those
/// of -0 and these.
pub const NEGATIVE_INFINITY_BITS: u64 = 0xfff0_0000_0000_0000;

impl Double {
    /// Whether the number is greater than 0.
    pub open spec fn is_positive(self) -> bool {
        ZERO_BITS < self.bits <= INFINITY_BITS
    }

    /// Whether the number is less than 0.
    pub open spec fn is_negative(self) -> bool {
        NEGATIVE_ZERO_BITS < self.bits <= NEGATIVE_INFINITY_BITS
    }

    /// Whether the number is greater than 1.
    pub open spec fn exceeds_one(self) -> bool {
        ONE_BITS < self.bits <= INFINITY_BITS
    }

    /// Whether this is a number at all.
    pub open spec fn is_number(self) -> bool {
        ||| self.bits <= INFINITY_BITS
        ||| NEGATIVE_ZERO_BITS <= self.bits <= NEGATIVE_INFINITY_BITS
    }

    /// The number, brought into the range from 0 to 1.
    pub open spec fn within_one(self) -> Double {
        if self.is_negative() {
            Double { bits: ZERO_BITS }
        } else if self.exceeds_one() {
            Double { bits: ONE_BITS }
        } else {
            self
        }
    }

    /// Tells whether the number is greater than 0.
    pub fn positive(&self) -> (r: bool)
        ensures
            r == self.is_positive(),
    {
        ZERO_BITS < self.bits && self.bits <= INFINITY_BITS
    }

    /// Brings the number into the range from 0 to 1.
    pub fn clamp_to_one(&self) -> (r: Double)
        ensures
            r == self.within_one(),
            self.is_number() ==> r.is_number() && !r.is_negative() && !r.exceeds_one(),
    {
        if NEGATIVE_ZERO_BITS < self.bits && self.bits <= NEGATIVE_INFINITY_BITS {
            Double { bits: ZERO_BITS }
        } else if ONE_BITS < self.bits && self.bits <= INFINITY_BITS {
            Double { bits: ONE_BITS }
        } else {
            *self
        }
    }
}

/// A JSON number: its value as an unsigned integer, where it is written as one that
/// fits, and as a double-precision number.
#[derive(Debug, Clone, Copy, PartialEq, Eq, Structural)]
pub struct JsonNumber {
    pub unsigned: Option<u64>,
    pub double: Option<Double>,
}

/// A JSON document.
#[derive(Debug, PartialEq)]
pub enum Json {
    Null,
    Bool(bool),
    Number(JsonNumber),
    Text(String),
    Array(Vec<Json>),
    Object(Vec<(String, Json)>),
}

/// What a JSON document says.
pub enum JsonView {
    Null,
    Bool(bool),
    Number(JsonNumber),
    Text(Seq<char>),
    Array(Seq<JsonView>),
    Object(Seq<(Seq<char>, JsonView)>),
}

/// The first value that stands under a key.
pub open spec fn lookup(fields: Seq<(Seq<char>, JsonView)>, key: Seq<char>) -> Option<JsonView>
    decreases fields.len(),
{
    if fields.len() == 0 {
        None
    } else if fields[0].0 == key {
        Some(fields[0].1)
    } else {
        lookup(fields.drop_first(), key)
    }
}

impl JsonView {
    /// The field of an object; other documents have no fields.
    pub open spec fn field(self, key: Seq<char>) -> Option<JsonView> {
        match self {
            JsonView::Object(fields) => lookup(fields, key),
            _ => None,
        }
    }

    /// The text of a string; other documents are no text.
    pub open spec fn text(self) -> Option<Seq<char>> {
        match self {
            JsonView::Text(text) => Some(text),
            _ => None,
        }
    }

    /// The text that stands under a key, where a string stands there.
    pub open spec fn text_field(self, key: Seq<char>) -> Option<Seq<char>> {
        match self.field(key) {
            Some(value) => value.text(),
            None => None,
        }
    }

    /// The truth value that a document is.
    pub open spec fn truth(self) -> Option<bool> {
        match self {
            JsonView::Bool(value) => Some(value),
            _ => None,
        }
    }

    /// The double-precision number that a document is.
    pub open spec fn double(self) -> Option<Double> {
        match self {
            JsonView::Number(number) => number.double,
            _ => None,
        }
    }

    /// The unsigned integer that a document is.
    pub open spec fn unsigned(self) -> Option<u64> {
        match self {
            JsonView::Number(number) => number.unsigned,
            _ => None,
        }
    }
}

/// What a JSON document says, read off its parts.
pub open spec fn json_view(json: Json) -> JsonView
    decreases json,
{
    match json {
        Json::Null => JsonView::Null,
        Json::Bool(value) => JsonView::Bool(value),
        Json::Number(number) => JsonView::Number(number),
        Json::Text(text) => JsonView::Text(text@),
        Json::Array(items) => JsonView::Array(
            Seq::new(
                items@.len(),
                |i: int|
                    if 0 <= i < items@.len() {
                        json_view(items@[i])
                    } else {
                        JsonView::Null
                    },
            ),
        ),
        Json::Object(fields) => JsonView::Object(
            Seq::new(
                fields@.len(),
                |i: int|
                    if 0 <= i < fields@.len() {
                        (fields@[i].0@, json_view(fields@[i].1))
                    } else {
                        (Seq::empty(), JsonView::Null)
                    },
            ),
        ),
    }
}

impl View for Json {
    type V = JsonView;

    open spec fn view(&self) -> JsonView {
        json_view(*self)
    }
}

/// What `serde_json::from_str` makes of a text: the document that it reads, or the
/// words of its error.
pub uninterp spec fn json_reading(text: Seq<char>) -> Result<JsonView, Seq<char>>;

/// What a `serde_json::Value` holds: its items in their order, its fields in the order
/// in which its map is walked, that of their keys.
pub uninterp spec fn value_contents(value: serde_json::Value) -> JsonView;

/// One layer of a `serde_json::Value`.
enum Layer {
    Null,
    Bool(bool),
    Number(JsonNumber),
    Text(String),
    Array(Vec<serde_json::Value>),
    Object(Vec<(String, serde_json::Value)>),
}

impl Layer {
    spec fn contents(self) -> JsonView {
        match self {
            Layer::Null => JsonView::Null,
            Layer::Bool(value) => JsonView::Bool(value),
            Layer::Number(number) => JsonView::Number(number),
            Layer::Text(text) => JsonView::Text(text@),
            Layer::Array(items) => JsonView::Array(
                Seq::new(items@.len(), |i: int| value_contents(items@[i])),
            ),
            Layer::Object(fields) => JsonView::Object(
                Seq::new(fields@.len(), |i: int| (fields@[i].0@, value_contents(fields@[i].1))),
            ),
        }
    }
}

/// Calls `serde_json::from_str` for a `serde_json::Value`. The contract names what comes
/// back, a function of the text alone; the error is taken by what it displays.
#[verifier::external_body]
fn read_value(text: &str) -> (value: Result<serde_json::Value, String>)
    ensures
        match value {
            Ok(value) => json_reading(text@) == Ok::<JsonView, Seq<char>>(value_contents(value)),
            Err(cause) => json_reading(text@) == Err::<JsonView, Seq<char>>(cause@),
        },
{
    serde_json::from_str(text).map_err(|error: serde_json::Error| error.to_string())
}

/// Takes a `serde_json::Value` apart, one arm for each of its variants. A number is
/// taken by `Number::as_u64` and by the bits of `Number::as_f64`; the map of an object
/// is handed over as the list of its fields.
#[verifier::external_body]
fn open_value(value: serde_json::Value) -> (layer: Layer)
    ensures
        layer.contents() == value_contents(value),
{
    match value {
        serde_json::Value::Null => Layer::Null,
        serde_json::Value::Bool(value) => Layer::Bool(value),
        serde_json::Value::Number(number) => Layer::Number(
            JsonNumber {
                unsigned: number.as_u64(),
                double: number.as_f64().map(|value| Double { bits: value.to_bits() }),
            },
        ),
        serde_json::Value::String(text) => Layer::Text(text),
        serde_json::Value::Array(items) => Layer::Array(items),
        serde_json::Value::Object(fields) => Layer::Object(fields.into_iter().collect()),
    }
}

/// Turns a `serde_json::Value` into a plain document.
fn from_value(value: serde_json::Value) -> (json: Json)
    ensures
        json@ == value_contents(value),
    decreases value_contents(value),
{
    let ghost contents = value_contents(value);
    match open_value(value) {
        Layer::Null => Json::Null,
        Layer::Bool(value) => Json::Bool(value),
        Layer::Number(number) => Json::Number(number),
        Layer::Text(text) => Json::Text(text),
        Layer::Array(values) => {
            let ghost all = values@;
            let mut items: Vec<Json> = Vec::new();
            for item in it: values.into_iter()
                invariant
                    it.seq() == all,
                    contents == value_contents(value),
                    contents == JsonView::Array(
                        Seq::new(all.len(), |i: int| value_contents(all[i])),
                    ),
                    items@.len() == it.index(),
                    forall|i: int|
                        0 <= i < items@.len() ==> (#[trigger] items@[i])@ == value_contents(all[i]),
            {
                assert(contents->Array_0[it.index()] == value_contents(item));
                items.push(from_value(item));
            }
            let json = Json::Array(items);
            assert(json@->Array_0 =~= contents->Array_0);
            json
        },
        Layer::Object(values) => {
            let ghost all = values@;
            let mut fields: Vec<(String, Json)> = Vec::new();
            for field in it: values.into_iter()
                invariant
                    it.seq() == all,
                    contents == value_contents(value),
                    contents == JsonView::Object(
                        Seq::new(all.len(), |i: int| (all[i].0@, value_contents(all[i].1))),
                    ),
                    fields@.len() == it.index(),
                    forall|i: int|
                        0 <= i < fields@.len() ==> {
                            &&& (#[trigger] fields@[i]).0@ == all[i].0@
                            &&& fields@[i].1@ == value_contents(all[i].1)
                        },
            {
                assert(contents->Object_0[it.index()].1 == value_contents(field.1));
                fields.push((field.0, from_value(field.1)));
            }
            let json = Json::Object(fields);
            assert(json@->Object_0 =~= contents->Object_0);
            json
        },
    }
}

/// Reads a JSON document.
pub fn parse_json(text: &str) -> (json: Result<Json, String>)
    ensures
        match json {
            Ok(json) => json_reading(text@) == Ok::<JsonView, Seq<char>>(json@),
            Err(cause) => json_reading(text@) == Err::<JsonView, Seq<char>>(cause@),
        },
{
    match read_value(text) {
        Ok(value) => Ok(from_value(value)),
        Err(cause) => Err(cause),
    }
}

/// What the fields of an object say.
pub open spec fn fields_view(fields: Seq<(String, Json)>) -> Seq<(Seq<char>, JsonView)> {
    Seq::new(fields.len(), |i: int| (fields[i].0@, fields[i].1@))
}

/// What the items of an array say.
pub open spec fn items_view(items: Seq<Json>) -> Seq<JsonView> {
    Seq::new(items.len(), |i: int| items[i]@)
}

/// An object says what its fields say.
pub proof fn lemma_object_view(fields: Vec<(String, Json)>)
    ensures
        Json::Object(fields)@ == JsonView::Object(fields_view(fields@)),
{
    assert(Json::Object(fields)@->Object_0 =~= fields_view(fields@));
}

/// An array says what its items say.
pub proof fn lemma_array_view(items: Vec<Json>)
    ensures
        Json::Array(items)@ == JsonView::Array(items_view(items@)),
{
    assert(Json::Array(items)@->Array_0 =~= items_view(items@));
}

/// Where the first field with a key stands in a list of fields.
fn position(fields: &Vec<(String, Json)>, key: &str) -> (r: Option<usize>)
    ensures
        match r {
            Some(at) => at < fields@.len() && lookup(fields_view(fields@), key@) == Some(
                fields@[at as int].1@,
            ),
            None => lookup(fields_view(fields@), key@) is None,
        },
{
    let ghost all = fields_view(fields@);
    assert(all.skip(0) =~= all);
    let mut at: usize = 0;
    while at < fields.len()
        invariant
            at <= fields@.len(),
            all == fields_view(fields@),
            lookup(all, key@) == lookup(all.skip(at as int), key@),
        decreases fields@.len() - at,
    {
        if text::same_text(fields[at].0.as_str(), key) {
            return Some(at);
        }
        assert(all.skip(at as int).drop_first() =~= all.skip(at + 1));
        at = at + 1;
    }
    None
}

impl Json {
    /// The value under a key of an object.
    pub fn field(&self, key: &str) -> (value: Option<&Json>)
        ensures
            match value {
                Some(value) => self@.field(key@) == Some(value@),
                None => self@.field(key@) is None,
            },
    {
        match self {
            Json::Object(fields) => {
                proof {
                    lemma_object_view(*fields);
                }
                match position(fields, key) {
                    Some(at) => Some(&fields[at].1),
                    None => None,
                }
            },
            _ => None,
        }
    }

    /// The value under a key of an object, taken out of it.
    pub fn take_field(self, key: &str) -> (value: Option<Json>)
        ensures
            match value {
                Some(value) => self@.field(key@) == Some(value@),
                None => self@.field(key@) is None,
            },
    {
        match self {
            Json::Object(mut fields) => {
                proof {
                    lemma_object_view(fields);
                }
                match position(&fields, key) {
                    Some(at) => {
                        let field = fields.swap_remove(at);
                        Some(field.1)
                    },
                    None => None,
                }
            },
            _ => None,
        }
    }

    /// The items of the array that a document is.
    pub fn as_items(&self) -> (items: Option<&Vec<Json>>)
        ensures
            match items {
                Some(items) => self@ == JsonView::Array(items_view(items@)),
                None => !(self@ is Array),
            },
    {
        match self {
            Json::Array(items) => {
                proof {
                    lemma_array_view(*items);
                }
                Some(items)
            },
            _ => None,
        }
    }

    /// The text that a document is.
    pub fn as_text(&self) -> (text: Option<String>)
        ensures
            text::text_view(text) == self@.text(),
    {
        match self {
            Json::Text(text) => Some(text.clone()),
            _ => None,
        }
    }

    /// The text under a key.
    pub fn text_field(&self, key: &str) -> (text: Option<String>)
        ensures
            text::text_view(text) == self@.text_field(key@),
    {
        match self.field(key) {
            Some(value) => value.as_text(),
            None => None,
        }
    }

    /// The truth value that a document is.
    pub fn as_bool(&self) -> (value: Option<bool>)
        ensures
            value == self@.truth(),
    {
        match self {
            Json::Bool(value) => Some(*value),
            _ => None,
        }
    }

    /// The double-precision number that a document is.
    pub fn as_double(&self) -> (value: Option<Double>)
        ensures
            value == self@.double(),
    {
        match self {
            Json::Number(number) => number.double,
            _ => None,
        }
    }

    /// The unsigned integer that a document is.
    pub fn as_unsigned(&self) -> (value: Option<u64>)
        ensures
            value == self@.unsigned(),
    {
        match self {
            Json::Number(number) => number.unsigned,
            _ => None,
        }
    }
}

/// A field of an object is the first one with its key; it is absent exactly if no field has
/// the key.
pub proof fn first_field_with_a_key_counts(fields: Seq<(Seq<char>, JsonView)>, key: Seq<char>)
    ensures
        match JsonView::Object(fields).field(key) {
            Some(value) => exists|at: int|
                {
                    &&& 0 <= at < fields.len()
                    &&& #[trigger] fields[at] == (key, value)
                    &&& forall|earlier: int|
                        0 <= earlier < at ==> (#[trigger] fields[earlier]).0 != key
                },
            None => forall|at: int| 0 <= at < fields.len() ==> (#[trigger] fields[at]).0 != key,
        },
    decreases fields.len(),
{
    if fields.len() > 0 {
        let rest = fields.drop_first();
        if fields[0].0 == key {
            assert(fields[0] == (key, fields[0].1));
        } else {
            first_field_with_a_key_counts(rest, key);
            match lookup(rest, key) {
                Some(value) => {
                    let at = choose|at: int|
                        {
                            &&& 0 <= at < rest.len()
                            &&& #[trigger] rest[at] == (key, value)
                            &&& forall|earlier: int|
                                0 <= earlier < at ==> (#[trigger] rest[earlier]).0 != key
                        };
                    assert(fields[at + 1] == (key, value));
                    assert forall|earlier: int| 0 <= earlier < at + 1 implies (
                    #[trigger] fields[earlier]).0 != key by {
                        if earlier > 0 {
                            assert(rest[earlier - 1] == fields[earlier]);
                        }
                    }
                },
                None => {
                    assert forall|at: int| 0 <= at < fields.len() implies (
                    #[trigger] fields[at]).0 != key by {
                        if at > 0 {
                            assert(rest[at - 1] == fields[at]);
                        }
                    }
                },
            }
        }
    }
}

/// What is no object has no fields.
pub proof fn only_objects_have_fields(document: JsonView, key: Seq<char>)
    requires
        !(document is Object),
    ensures
        document.field(key) is None,
        document.text_field(key) is None,
{
}

/// A document is read as what it is and as nothing else: a text as its text, a truth value
/// as itself, a number by its two values.
pub proof fn documents_are_read_as_what_they_are(
    document: JsonView,
    text: Seq<char>,
    truth: bool,
    double: Double,
    unsigned: u64,
)
    ensures
        document.text() == Some(text) <==> document == JsonView::Text(text),
        document.truth() == Some(truth) <==> document == JsonView::Bool(truth),
        document.double() == Some(double) <==> (document is Number && document->Number_0.double
            == Some(double)),
        document.unsigned() == Some(unsigned) <==> (document is Number
            && document->Number_0.unsigned == Some(unsigned)),
{
}

/// The text under a key is that of a string that stands there.
pub proof fn text_under_a_key(document: JsonView, key: Seq<char>, text: Seq<char>)
    ensures
        document.text_field(key) == Some(text) <==> document.field(key) == Some(
            JsonView::Text(text),
        ),
{
}

/// A document says all that it holds: every item of an array and every field of an object,
/// in their places.
pub proof fn documents_say_what_they_hold(items: Vec<Json>, fields: Vec<(String, Json)>, at: int)
    ensures
        Json::Array(items)@ is Array,
        Json::Array(items)@->Array_0.len() == items@.len(),
        0 <= at < items@.len() ==> Json::Array(items)@->Array_0[at] == items@[at]@,
        Json::Object(fields)@ is Object,
        Json::Object(fields)@->Object_0.len() == fields@.len(),
        0 <= at < fields@.len() ==> Json::Object(fields)@->Object_0[at].0 == fields@[at].0@,
        0 <= at < fields@.len() ==> Json::Object(fields)@->Object_0[at].1 == fields@[at].1@,
{
}

/// A simple document says what it is.
pub proof fn simple_documents_say_what_they_are(truth: bool, number: JsonNumber, text: String)
    ensures
        Json::Null@ == JsonView::Null,
        Json::Bool(truth)@ == JsonView::Bool(truth),
        Json::Number(number)@ == JsonView::Number(number),
        Json::Text(text)@ == JsonView::Text(text@),
{
}

/// Numbers are ordered by their bits, and those below 0 are the ones with the sign: of the
/// positive ones, the range up to 1 is left as it is, and what lies above comes to 1.
pub proof fn clamping_keeps_the_range_from_zero_to_one(number: Double)
    ensures
        number.bits <= 0x3ff0_0000_0000_0000 ==> number.within_one() == number,
        0x3ff0_0000_0000_0000 <= number.bits <= 0x7ff0_0000_0000_0000
            ==> number.within_one().bits == 0x3ff0_0000_0000_0000,
        number.bits == 0x8000_0000_0000_0000 ==> number.within_one() == number,
        0x8000_0000_0000_0000 < number.bits <= 0xfff0_0000_0000_0000 ==> number.within_one().bits
            == 0,
        number.is_positive() <==> 0 < number.bits <= 0x7ff0_0000_0000_0000,
{
}

} // verus!
