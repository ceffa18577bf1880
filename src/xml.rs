//! The events a streaming XML reader hands to the format loaders, and
//! lookups on element attributes.
use vstd::prelude::*;
use crate::error::MetadataError;
use crate::text::{all_digits, decimal_value, parse_u64, str_eq};

verus! {

/// One event of a streaming XML reader: an opening element with its
/// attributes, a run of text, a closing element, or the end of the document.
pub enum XmlEvent {
    Start(String, Vec<(String, String)>),
    Text(String),
    End(String),
    Eof,
}

/// What an event holds, as sequences of characters.
pub enum EventModel {
    Start(Seq<char>, Seq<(Seq<char>, Seq<char>)>),
    Text(Seq<char>),
    End(Seq<char>),
    Eof,
}

/// The characters of each attribute name and value.
pub open spec fn attrs_model(attrs: Seq<(String, String)>) -> Seq<(Seq<char>, Seq<char>)> {
    attrs.map_values(|a: (String, String)| (a.0@, a.1@))
}

impl XmlEvent {
    /// What this event holds, as sequences of characters.
    pub open spec fn model(&self) -> EventModel {
        match self {
            XmlEvent::Start(n, attrs) => EventModel::Start(n@, attrs_model(attrs@)),
            XmlEvent::Text(t) => EventModel::Text(t@),
            XmlEvent::End(n) => EventModel::End(n@),
            XmlEvent::Eof => EventModel::Eof,
        }
    }
}

/// The models of a list of events.
pub open spec fn events_model(events: Seq<XmlEvent>) -> Seq<EventModel> {
    events.map_values(|e: XmlEvent| e.model())
}

/// The events of an element that holds only text: open, text, close.
pub open spec fn text_element_model(name: Seq<char>, attrs: Seq<(Seq<char>, Seq<char>)>, text: Seq<char>) -> Seq<
    EventModel,
> {
    seq![EventModel::Start(name, attrs), EventModel::Text(text), EventModel::End(name)]
}

/// Appends an element that holds only text.
pub fn push_text_element(out: &mut Vec<XmlEvent>, name: &str, attrs: Vec<(String, String)>, text: String)
    ensures
        events_model(final(out)@) == events_model(old(out)@) + text_element_model(name@, attrs_model(attrs@), text@),
{
    let ghost a = attrs;
    out.push(XmlEvent::Start(name.to_owned(), attrs));
    out.push(XmlEvent::Text(text));
    out.push(XmlEvent::End(name.to_owned()));
    assert(events_model(out@) =~= events_model(old(out)@) + text_element_model(name@, attrs_model(a@), text@));
}

/// Appends an element with attributes and nothing inside.
pub fn push_empty_element(out: &mut Vec<XmlEvent>, name: &str, attrs: Vec<(String, String)>)
    ensures
        events_model(final(out)@) == events_model(old(out)@) + seq![
            EventModel::Start(name@, attrs_model(attrs@)),
            EventModel::End(name@),
        ],
{
    let ghost a = attrs;
    out.push(XmlEvent::Start(name.to_owned(), attrs));
    out.push(XmlEvent::End(name.to_owned()));
    assert(events_model(out@) =~= events_model(old(out)@) + seq![
        EventModel::Start(name@, attrs_model(a@)),
        EventModel::End(name@),
    ]);
}

/// The value of the first attribute named `key`.
pub open spec fn attr_value(attrs: Seq<(String, String)>, key: Seq<char>) -> Option<Seq<char>>
    decreases attrs.len(),
{
    if attrs.len() == 0 {
        None
    } else if attrs[0].0@ == key {
        Some(attrs[0].1@)
    } else {
        attr_value(attrs.drop_first(), key)
    }
}

/// An attribute's value, or empty where it is absent.
pub open spec fn attr_or_empty(attrs: Seq<(String, String)>, key: Seq<char>) -> Seq<char> {
    match attr_value(attrs, key) {
        Some(v) => v,
        None => Seq::empty(),
    }
}

/// The view of an optional string.
pub open spec fn opt_view(o: Option<String>) -> Option<Seq<char>> {
    match o {
        Some(s) => Some(s@),
        None => None,
    }
}

/// The value of the first attribute named `key`.
pub fn find_attr(attrs: &Vec<(String, String)>, key: &str) -> (r: Option<String>)
    ensures
        opt_view(r) == attr_value(attrs@, key@),
{
    let mut i: usize = 0;
    assert(attrs@.skip(0) =~= attrs@);
    while i < attrs.len()
        invariant
            i <= attrs@.len(),
            attr_value(attrs@, key@) == attr_value(attrs@.skip(i as int), key@),
        decreases attrs@.len() - i,
    {
        assert(attrs@.skip(i as int)[0] == attrs@[i as int]);
        if str_eq(attrs[i].0.as_str(), key) {
            return Some(attrs[i].1.clone());
        }
        assert(attrs@.skip(i as int).drop_first() =~= attrs@.skip(i + 1));
        i = i + 1;
    }
    None
}

/// An attribute's value, or empty where it is absent.
pub fn attr_or_default(attrs: &Vec<(String, String)>, key: &str) -> (r: String)
    ensures
        r@ == attr_or_empty(attrs@, key@),
{
    match find_attr(attrs, key) {
        Some(v) => v,
        None => String::new(),
    }
}

/// The number a numeric attribute gives: 0 where it is absent, and `None`
/// where it is not a decimal number that fits in 64 bits.
pub open spec fn number_attr(attr: Option<Seq<char>>) -> Option<u64> {
    match attr {
        None => Some(0),
        Some(t) => if t.len() > 0 && all_digits(t) && decimal_value(t) <= u64::MAX {
            Some(decimal_value(t) as u64)
        } else {
            None
        },
    }
}

/// Reads a numeric attribute, which is 0 where it is absent; text that is
/// not a number is reported with the text itself.
pub fn number_attr_or_zero(attrs: &Vec<(String, String)>, key: &str) -> (r: Result<u64, MetadataError>)
    ensures
        number_attr(attr_value(attrs@, key@)) matches Some(d) ==> r == Ok::<u64, MetadataError>(d),
        number_attr(attr_value(attrs@, key@)) is None ==> (r matches Err(MetadataError::IntFieldParseError(t))
            && Some(t@) == attr_value(attrs@, key@)),
{
    match find_attr(attrs, key) {
        None => Ok(0),
        Some(t) => match parse_u64(t.as_str()) {
            Some(d) => Ok(d),
            None => Err(MetadataError::IntFieldParseError(t)),
        },
    }
}

} // verus!
