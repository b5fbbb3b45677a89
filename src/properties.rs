//! Reading named attributes of ingested records.

use vstd::prelude::*;

verus! {

/// The value of a named attribute of an ingested record, as far as the
/// ingestion logic reads it.
#[derive(Debug, Clone)]
pub enum PropertyValue {
    /// No value: JSON `null`, or a character field left blank.
    Null,
    /// A text value.
    Text(String),
    /// A value of any other type (number, flag, date, array, object).
    Other,
}

/// The attributes of one record, as (name, value) pairs.
pub type Properties = Vec<(String, PropertyValue)>;

/// Why an ingested record could not be turned into a stored feature.
#[derive(Debug, Clone)]
pub enum IngestError {
    /// A required attribute is absent, or has no value.
    MissingField(String),
    /// An attribute holds a value of a type that the logic does not read.
    UnexpectedValue(String),
}

/// The model of an `IngestError`: the kind and the attribute's name.
pub enum IngestFault {
    MissingField(Seq<char>),
    UnexpectedValue(Seq<char>),
}

impl View for IngestError {
    type V = IngestFault;

    open spec fn view(&self) -> IngestFault {
        match self {
            IngestError::MissingField(n) => IngestFault::MissingField(n@),
            IngestError::UnexpectedValue(n) => IngestFault::UnexpectedValue(n@),
        }
    }
}

pub open spec fn opt_view(o: Option<String>) -> Option<Seq<char>> {
    match o {
        Some(s) => Some(s@),
        None => None,
    }
}

/// The value of the first attribute named `key`, if any.
pub open spec fn lookup(props: Seq<(String, PropertyValue)>, key: Seq<char>) -> Option<PropertyValue>
    decreases props.len(),
{
    if props.len() == 0 {
        None
    } else if props[0].0@ == key {
        Some(props[0].1)
    } else {
        lookup(props.drop_first(), key)
    }
}

/// Reading attribute `key` as optional text: absent is a missing field,
/// null is no text, and a value of another type is refused.
pub open spec fn property_spec(props: Seq<(String, PropertyValue)>, key: Seq<char>) -> Result<
    Option<Seq<char>>,
    IngestFault,
> {
    match lookup(props, key) {
        None => Err(IngestFault::MissingField(key)),
        Some(PropertyValue::Null) => Ok(None),
        Some(PropertyValue::Text(s)) => Ok(Some(s@)),
        Some(PropertyValue::Other) => Err(IngestFault::UnexpectedValue(key)),
    }
}

/// Reading attribute `key` as required text: as `property_spec`, and
/// no text is a missing field.
pub open spec fn required_spec(props: Seq<(String, PropertyValue)>, key: Seq<char>) -> Result<
    Seq<char>,
    IngestFault,
> {
    match property_spec(props, key) {
        Err(e) => Err(e),
        Ok(None) => Err(IngestFault::MissingField(key)),
        Ok(Some(v)) => Ok(v),
    }
}

/// The text of attribute `key` where it holds text, else nothing.
pub open spec fn text_field(props: Seq<(String, PropertyValue)>, key: Seq<char>) -> Option<Seq<char>> {
    match lookup(props, key) {
        Some(PropertyValue::Text(s)) => Some(s@),
        _ => None,
    }
}

pub open spec fn optional_result_view(r: Result<Option<String>, IngestError>) -> Result<
    Option<Seq<char>>,
    IngestFault,
> {
    match r {
        Ok(o) => Ok(opt_view(o)),
        Err(e) => Err(e@),
    }
}

pub open spec fn required_result_view(r: Result<String, IngestError>) -> Result<Seq<char>, IngestFault> {
    match r {
        Ok(s) => Ok(s@),
        Err(e) => Err(e@),
    }
}

proof fn lemma_lookup_step(props: Seq<(String, PropertyValue)>, key: Seq<char>, i: int)
    requires
        0 <= i < props.len(),
        props[i].0@ != key,
    ensures
        lookup(props.subrange(i, props.len() as int), key) == lookup(
            props.subrange(i + 1, props.len() as int),
            key,
        ),
{
    assert(props.subrange(i, props.len() as int).drop_first() =~= props.subrange(
        i + 1,
        props.len() as int,
    ));
}

/// The position of the first attribute named `key`.
pub fn find_property(props: &Properties, key: &str) -> (r: Option<usize>)
    ensures
        r is None ==> lookup(props@, key@) is None,
        r is Some ==> r->Some_0 < props@.len() && lookup(props@, key@) == Some(
            props@[r->Some_0 as int].1,
        ),
{
    let wanted = String::from_str(key);
    let n = props.len();
    let mut i: usize = 0;
    assert(props@.subrange(0, n as int) =~= props@);
    while i < n
        invariant
            n == props@.len(),
            0 <= i <= n,
            wanted@ == key@,
            lookup(props@, key@) == lookup(props@.subrange(i as int, n as int), key@),
        decreases n - i,
    {
        if props[i].0 == wanted {
            return Some(i);
        }
        proof {
            lemma_lookup_step(props@, key@, i as int);
        }
        i = i + 1;
    }
    None
}

/// Reads attribute `key` as optional text.
pub fn get_feature_property(props: &Properties, key: &str) -> (r: Result<Option<String>, IngestError>)
    ensures
        optional_result_view(r) == property_spec(props@, key@),
{
    match find_property(props, key) {
        None => Err(IngestError::MissingField(String::from_str(key))),
        Some(i) => match &props[i].1 {
            PropertyValue::Null => Ok(None),
            PropertyValue::Text(s) => Ok(Some(s.clone())),
            PropertyValue::Other => Err(IngestError::UnexpectedValue(String::from_str(key))),
        },
    }
}

/// Reads attribute `key` as required text.
pub fn required_property(props: &Properties, key: &str) -> (r: Result<String, IngestError>)
    ensures
        required_result_view(r) == required_spec(props@, key@),
{
    match get_feature_property(props, key) {
        Err(e) => Err(e),
        Ok(None) => Err(IngestError::MissingField(String::from_str(key))),
        Ok(Some(v)) => Ok(v),
    }
}

/// The text of attribute `key`, where it is present and holds text.
pub fn read_string_field(props: &Properties, name: &str) -> (r: Option<String>)
    ensures
        opt_view(r) == text_field(props@, name@),
{
    match find_property(props, name) {
        None => None,
        Some(i) => match &props[i].1 {
            PropertyValue::Text(s) => Some(s.clone()),
            _ => None,
        },
    }
}

} // verus!
