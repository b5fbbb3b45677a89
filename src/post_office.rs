//! The attributes of post office records and how they are published.

use vstd::prelude::*;
use crate::schema::{FieldKind, Schema};
use crate::properties::{IngestError, IngestFault, Properties, PropertyValue, read_string_field, text_field};

verus! {

/// The attributes of a post office, as read from a facility file.
#[derive(Debug, Clone)]
pub struct PostOfficeAttributes {
    /// Code of the sub-region (city) the office lies in.
    pub city_code: String,
    /// Facility category code.
    pub category_code: String,
    /// Facility subcategory code.
    pub subcategory_code: String,
    /// Post office classification code.
    pub post_office_code: String,
    /// Official name.
    pub name: String,
    /// Address without the sub-region name.
    pub address: String,
}

/// The attribute names of a post office record, in the order of the
/// fields of `PostOfficeAttributes`.
pub open spec fn post_office_keys() -> Seq<Seq<char>> {
    seq!["P30_001"@, "P30_002"@, "P30_003"@, "P30_004"@, "P30_005"@, "P30_006"@]
}

/// The first of `keys` whose attribute holds no text.
pub open spec fn first_missing(props: Seq<(String, PropertyValue)>, keys: Seq<Seq<char>>) -> Option<
    Seq<char>,
>
    decreases keys.len(),
{
    if keys.len() == 0 {
        None
    } else if text_field(props, keys[0]) is None {
        Some(keys[0])
    } else {
        first_missing(props, keys.drop_first())
    }
}

impl PostOfficeAttributes {
    pub open spec fn fields(&self) -> Seq<Seq<char>> {
        seq![
            self.city_code@,
            self.category_code@,
            self.subcategory_code@,
            self.post_office_code@,
            self.name@,
            self.address@,
        ]
    }
}

/// Reads one required text attribute of a post office record.
fn required_text(props: &Properties, key: &str) -> (r: Result<String, IngestError>)
    ensures
        match r {
            Ok(s) => text_field(props@, key@) == Some(s@),
            Err(e) => text_field(props@, key@) is None && e@ == IngestFault::MissingField(key@),
        },
{
    match read_string_field(props, key) {
        Some(s) => Ok(s),
        None => Err(IngestError::MissingField(String::from_str(key))),
    }
}

/// Reads the attributes of a post office record. Each must hold text; the
/// first that does not is reported as missing.
pub fn post_office_attributes(record: &Properties) -> (r: Result<PostOfficeAttributes, IngestError>)
    ensures
        match r {
            Ok(a) => first_missing(record@, post_office_keys()) is None && forall|k: int|
                0 <= k < 6 ==> text_field(record@, #[trigger] post_office_keys()[k]) == Some(
                    a.fields()[k],
                ),
            Err(e) => first_missing(record@, post_office_keys()) is Some && e@
                == IngestFault::MissingField(first_missing(record@, post_office_keys())->Some_0),
        },
{
    let ghost keys = post_office_keys();
    proof {
        reveal_with_fuel(first_missing, 7);
        assert(keys.drop_first() =~= seq!["P30_002"@, "P30_003"@, "P30_004"@, "P30_005"@, "P30_006"@]);
        assert(keys.drop_first().drop_first() =~= seq!["P30_003"@, "P30_004"@, "P30_005"@, "P30_006"@]);
        assert(keys.drop_first().drop_first().drop_first() =~= seq!["P30_004"@, "P30_005"@, "P30_006"@]);
        assert(keys.drop_first().drop_first().drop_first().drop_first() =~= seq!["P30_005"@, "P30_006"@]);
        assert(keys.drop_first().drop_first().drop_first().drop_first().drop_first() =~= seq!["P30_006"@]);
        assert(keys.drop_first().drop_first().drop_first().drop_first().drop_first().drop_first() =~= Seq::<Seq<char>>::empty());
    }
    let city_code = match required_text(record, "P30_001") {
        Err(e) => { return Err(e); },
        Ok(s) => s,
    };
    let category_code = match required_text(record, "P30_002") {
        Err(e) => { return Err(e); },
        Ok(s) => s,
    };
    let subcategory_code = match required_text(record, "P30_003") {
        Err(e) => { return Err(e); },
        Ok(s) => s,
    };
    let post_office_code = match required_text(record, "P30_004") {
        Err(e) => { return Err(e); },
        Ok(s) => s,
    };
    let name = match required_text(record, "P30_005") {
        Err(e) => { return Err(e); },
        Ok(s) => s,
    };
    let address = match required_text(record, "P30_006") {
        Err(e) => { return Err(e); },
        Ok(s) => s,
    };
    let a = PostOfficeAttributes {
        city_code,
        category_code,
        subcategory_code,
        post_office_code,
        name,
        address,
    };
    assert forall|k: int| 0 <= k < 6 implies text_field(record@, #[trigger] post_office_keys()[k])
        == Some(a.fields()[k]) by {
        if k == 0 {} else if k == 1 {} else if k == 2 {} else if k == 3 {} else if k == 4 {} else {}
    }
    Ok(a)
}

/// The property names under which a post office's attributes are
/// published, in publishing order.
pub open spec fn post_office_property_names() -> Seq<Seq<char>> {
    seq!["cityCode"@, "categoryCode"@, "subcategoryCode"@, "postOfficeCode"@, "name"@, "address"@]
}

/// The published properties of a post office: each attribute under its
/// published name, in a fixed order.
pub fn post_office_properties(a: &PostOfficeAttributes) -> (r: Vec<(String, String)>)
    ensures
        r@.len() == 6,
        forall|k: int|
            0 <= k < 6 ==> (#[trigger] r@[k]).0@ == post_office_property_names()[k] && r@[k].1@
                == a.fields()[k],
{
    let mut r: Vec<(String, String)> = Vec::new();
    r.push((String::from_str("cityCode"), a.city_code.clone()));
    r.push((String::from_str("categoryCode"), a.category_code.clone()));
    r.push((String::from_str("subcategoryCode"), a.subcategory_code.clone()));
    r.push((String::from_str("postOfficeCode"), a.post_office_code.clone()));
    r.push((String::from_str("name"), a.name.clone()));
    r.push((String::from_str("address"), a.address.clone()));
    r
}

/// The attribute fields that a post office file is expected to declare:
/// each of `post_office_keys`, as character data.
pub fn post_office_schema() -> (r: Schema)
    ensures
        r@.len() == 6,
        forall|k: int|
            0 <= k < 6 ==> (#[trigger] r@[k]).0@ == post_office_keys()[k] && r@[k].1
                == FieldKind::Character,
{
    let mut r: Schema = Vec::new();
    r.push((String::from_str("P30_001"), FieldKind::Character));
    r.push((String::from_str("P30_002"), FieldKind::Character));
    r.push((String::from_str("P30_003"), FieldKind::Character));
    r.push((String::from_str("P30_004"), FieldKind::Character));
    r.push((String::from_str("P30_005"), FieldKind::Character));
    r.push((String::from_str("P30_006"), FieldKind::Character));
    r
}

} // verus!
