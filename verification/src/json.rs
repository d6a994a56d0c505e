//! The JSON bodies that requests to the backend carry.
//!
//! A body is a flat object. Its values are the few shapes that the backend's
//! API takes from this application: null, a boolean, a text, a list of texts.

use vstd::prelude::*;
use crate::text::texts;

verus! {

/// A value of a body, as contracts see it.
pub enum JsonModel {
    Null,
    Bool(bool),
    Text(Seq<char>),
    TextList(Seq<Seq<char>>),
}

/// A value of a body.
#[derive(Debug, PartialEq, Eq)]
pub enum JsonValue {
    Null,
    Bool(bool),
    Text(String),
    TextList(Vec<String>),
}

impl View for JsonValue {
    type V = JsonModel;

    open spec fn view(&self) -> JsonModel {
        match *self {
            JsonValue::Null => JsonModel::Null,
            JsonValue::Bool(b) => JsonModel::Bool(b),
            JsonValue::Text(s) => JsonModel::Text(s@),
            JsonValue::TextList(items) => JsonModel::TextList(texts(items@)),
        }
    }
}

/// One member of a body: a name and its value.
#[derive(Debug, PartialEq, Eq)]
pub struct JsonField {
    pub name: String,
    pub value: JsonValue,
}

impl View for JsonField {
    type V = (Seq<char>, JsonModel);

    open spec fn view(&self) -> (Seq<char>, JsonModel) {
        (self.name@, self.value@)
    }
}

/// A body: its members, in the order in which they were added.
#[derive(Debug, PartialEq, Eq)]
pub struct JsonObject {
    pub fields: Vec<JsonField>,
}

impl View for JsonObject {
    type V = Seq<(Seq<char>, JsonModel)>;

    open spec fn view(&self) -> Seq<(Seq<char>, JsonModel)> {
        self.fields@.map_values(|f: JsonField| f@)
    }
}

/// The model of an optional text: the text, or null where there is none.
pub open spec fn optional_text_model(text: Option<String>) -> JsonModel {
    match text {
        Some(s) => JsonModel::Text(s@),
        None => JsonModel::Null,
    }
}

impl JsonValue {
    /// The JSON string with the content of `text`.
    pub fn text(text: &str) -> (value: JsonValue)
        ensures
            value@ == JsonModel::Text(text@),
    {
        JsonValue::Text(String::from_str(text))
    }

    /// The JSON string of a text that is there, null for one that is not.
    pub fn optional_text(text: &Option<String>) -> (value: JsonValue)
        ensures
            value@ == optional_text_model(*text),
    {
        match text {
            Some(s) => JsonValue::Text(s.clone()),
            None => JsonValue::Null,
        }
    }

    /// The JSON array of the texts in `items`, in their order.
    pub fn text_list(items: &Vec<String>) -> (value: JsonValue)
        ensures
            value@ == JsonModel::TextList(texts(items@)),
    {
        let mut copy: Vec<String> = Vec::new();
        let mut i: usize = 0;
        while i < items.len()
            invariant
                i <= items.len(),
                copy.len() == i,
                forall|k: int| 0 <= k < i ==> copy[k]@ == items[k]@,
            decreases items.len() - i,
        {
            copy.push(items[i].clone());
            i = i + 1;
        }
        assert(texts(copy@) =~= texts(items@));
        JsonValue::TextList(copy)
    }
}

impl JsonObject {
    /// The object without members.
    pub fn new() -> (object: JsonObject)
        ensures
            object@ == Seq::<(Seq<char>, JsonModel)>::empty(),
    {
        let object = JsonObject { fields: Vec::new() };
        assert(object@ =~= Seq::<(Seq<char>, JsonModel)>::empty());
        object
    }

    /// The object with one more member at its end.
    pub fn with(self, name: &str, value: JsonValue) -> (object: JsonObject)
        ensures
            object@ == self@.push((name@, value@)),
    {
        let mut fields = self.fields;
        fields.push(JsonField { name: String::from_str(name), value });
        let object = JsonObject { fields };
        assert(object@ =~= self@.push((name@, value@)));
        object
    }
}

} // verus!
