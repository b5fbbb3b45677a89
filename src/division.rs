//! Splitting an administrative-division file into regions and sub-regions.

use vstd::prelude::*;
use crate::properties::{
    IngestError, IngestFault, Properties, PropertyValue, get_feature_property, property_spec,
    required_property, required_spec,
};

verus! {

/// A region (prefecture) read from an administrative-division file.
#[derive(Debug, Clone)]
pub struct PrefectureRecord {
    /// Position of the source feature, whose geometry this record takes.
    pub index: usize,
    pub name: String,
}

/// A sub-region (city) read from an administrative-division file.
#[derive(Debug, Clone)]
pub struct CityRecord {
    /// Position of the source feature, whose geometry this record takes.
    pub index: usize,
    pub code: String,
    pub area: Option<String>,
    pub name: String,
}

/// The records of one file, split into regions and sub-regions.
#[derive(Debug, Clone)]
pub struct Division {
    pub prefectures: Vec<PrefectureRecord>,
    pub cities: Vec<CityRecord>,
}

pub struct PrefectureModel {
    pub index: nat,
    pub name: Seq<char>,
}

pub struct CityModel {
    pub index: nat,
    pub code: Seq<char>,
    pub area: Option<Seq<char>>,
    pub name: Seq<char>,
}

impl View for PrefectureRecord {
    type V = PrefectureModel;

    open spec fn view(&self) -> PrefectureModel {
        PrefectureModel { index: self.index as nat, name: self.name@ }
    }
}

impl View for CityRecord {
    type V = CityModel;

    open spec fn view(&self) -> CityModel {
        CityModel {
            index: self.index as nat,
            code: self.code@,
            area: crate::properties::opt_view(self.area),
            name: self.name@,
        }
    }
}

/// The attribute holds non-empty text.
pub open spec fn filled(p: Result<Option<Seq<char>>, IngestFault>) -> bool {
    p is Ok && p->Ok_0 is Some && p->Ok_0->Some_0.len() > 0
}

/// A feature is a region when none of its sub-region name attributes
/// (`N03_002` to `N03_004`, read in that order) holds non-empty text.
/// The first attribute that cannot be read decides an error.
pub open spec fn prefecture_spec(props: Seq<(String, PropertyValue)>) -> Result<bool, IngestFault> {
    let a = property_spec(props, "N03_002"@);
    let b = property_spec(props, "N03_003"@);
    let c = property_spec(props, "N03_004"@);
    if a is Err {
        Err(a->Err_0)
    } else if filled(a) {
        Ok(false)
    } else if b is Err {
        Err(b->Err_0)
    } else if filled(b) {
        Ok(false)
    } else if c is Err {
        Err(c->Err_0)
    } else if filled(c) {
        Ok(false)
    } else {
        Ok(true)
    }
}

pub open spec fn bool_result_view(r: Result<bool, IngestError>) -> Result<bool, IngestFault> {
    match r {
        Ok(b) => Ok(b),
        Err(e) => Err(e@),
    }
}

/// Reads whether attribute `key` holds non-empty text.
fn has_text(props: &Properties, key: &str) -> (r: Result<bool, IngestError>)
    ensures
        bool_result_view(r) == match property_spec(props@, key@) {
            Err(e) => Err(e),
            Ok(o) => Ok(filled(Ok(o))),
        },
{
    match get_feature_property(props, key) {
        Err(e) => Err(e),
        Ok(None) => Ok(false),
        Ok(Some(v)) => Ok(v.unicode_len() > 0),
    }
}

/// Decides whether a feature of an administrative-division file is a region
/// rather than a sub-region.
pub fn is_prefecture(props: &Properties) -> (r: Result<bool, IngestError>)
    ensures
        bool_result_view(r) == prefecture_spec(props@),
{
    let a = has_text(props, "N03_002");
    match a {
        Err(e) => { return Err(e); },
        Ok(true) => { return Ok(false); },
        Ok(false) => {},
    }
    let b = has_text(props, "N03_003");
    match b {
        Err(e) => { return Err(e); },
        Ok(true) => { return Ok(false); },
        Ok(false) => {},
    }
    let c = has_text(props, "N03_004");
    match c {
        Err(e) => Err(e),
        Ok(true) => Ok(false),
        Ok(false) => Ok(true),
    }
}

/// The region record of feature `index`: its name is `N03_001`.
pub open spec fn prefecture_record_spec(props: Seq<(String, PropertyValue)>, index: nat) -> Result<
    PrefectureModel,
    IngestFault,
> {
    match required_spec(props, "N03_001"@) {
        Err(e) => Err(e),
        Ok(name) => Ok(PrefectureModel { index, name }),
    }
}

/// The sub-region record of feature `index`: its area is the optional
/// `N03_003`, its name `N03_004` and its code `N03_007`, read in that order.
pub open spec fn city_record_spec(props: Seq<(String, PropertyValue)>, index: nat) -> Result<
    CityModel,
    IngestFault,
> {
    match property_spec(props, "N03_003"@) {
        Err(e) => Err(e),
        Ok(area) => match required_spec(props, "N03_004"@) {
            Err(e) => Err(e),
            Ok(name) => match required_spec(props, "N03_007"@) {
                Err(e) => Err(e),
                Ok(code) => Ok(CityModel { index, code, area, name }),
            },
        },
    }
}

/// Builds the region record of feature `index`.
pub fn create_prefecture_feature(props: &Properties, index: usize) -> (r: Result<
    PrefectureRecord,
    IngestError,
>)
    ensures
        match r {
            Ok(p) => prefecture_record_spec(props@, index as nat) == Ok::<
                PrefectureModel,
                IngestFault,
            >(p@),
            Err(e) => prefecture_record_spec(props@, index as nat) == Err::<
                PrefectureModel,
                IngestFault,
            >(e@),
        },
{
    match required_property(props, "N03_001") {
        Err(e) => Err(e),
        Ok(name) => Ok(PrefectureRecord { index, name }),
    }
}

/// Builds the sub-region record of feature `index`.
pub fn create_city_feature(props: &Properties, index: usize) -> (r: Result<CityRecord, IngestError>)
    ensures
        match r {
            Ok(c) => city_record_spec(props@, index as nat) == Ok::<CityModel, IngestFault>(c@),
            Err(e) => city_record_spec(props@, index as nat) == Err::<CityModel, IngestFault>(e@),
        },
{
    let area = match get_feature_property(props, "N03_003") {
        Err(e) => { return Err(e); },
        Ok(a) => a,
    };
    let name = match required_property(props, "N03_004") {
        Err(e) => { return Err(e); },
        Ok(n) => n,
    };
    let code = match required_property(props, "N03_007") {
        Err(e) => { return Err(e); },
        Ok(c) => c,
    };
    Ok(CityRecord { index, code, area, name })
}

pub open spec fn prefecture_models(v: Seq<PrefectureRecord>) -> Seq<PrefectureModel> {
    v.map_values(|p: PrefectureRecord| p@)
}

pub open spec fn city_models(v: Seq<CityRecord>) -> Seq<CityModel> {
    v.map_values(|c: CityRecord| c@)
}

pub open spec fn feature_views(fs: Seq<Properties>) -> Seq<Seq<(String, PropertyValue)>> {
    fs.map_values(|f: Properties| f@)
}

/// Splitting features into regions and sub-regions, in order, each record
/// keeping its feature's position. The first feature that cannot be read
/// decides an error.
pub open spec fn divide_spec(fs: Seq<Seq<(String, PropertyValue)>>) -> Result<
    (Seq<PrefectureModel>, Seq<CityModel>),
    IngestFault,
>
    decreases fs.len(),
{
    if fs.len() == 0 {
        Ok((Seq::empty(), Seq::empty()))
    } else {
        match divide_spec(fs.drop_last()) {
            Err(e) => Err(e),
            Ok(parts) => {
                let i = (fs.len() - 1) as nat;
                match prefecture_spec(fs.last()) {
                    Err(e) => Err(e),
                    Ok(true) => match prefecture_record_spec(fs.last(), i) {
                        Err(e) => Err(e),
                        Ok(m) => Ok((parts.0.push(m), parts.1)),
                    },
                    Ok(false) => match city_record_spec(fs.last(), i) {
                        Err(e) => Err(e),
                        Ok(m) => Ok((parts.0, parts.1.push(m))),
                    },
                }
            },
        }
    }
}

proof fn lemma_divide_error_persists(fs: Seq<Seq<(String, PropertyValue)>>, k: int)
    requires
        0 <= k <= fs.len(),
        divide_spec(fs.take(k)) is Err,
    ensures
        divide_spec(fs) == divide_spec(fs.take(k)),
    decreases fs.len(),
{
    if k == fs.len() {
        assert(fs.take(k) =~= fs);
    } else {
        assert(fs.drop_last().take(k) =~= fs.take(k));
        lemma_divide_error_persists(fs.drop_last(), k);
    }
}

/// Splits the features of an administrative-division file into region and
/// sub-region records.
pub fn divide_prefectures_and_cities(features: &Vec<Properties>) -> (r: Result<Division, IngestError>)
    ensures
        match r {
            Ok(d) => divide_spec(feature_views(features@)) == Ok::<
                (Seq<PrefectureModel>, Seq<CityModel>),
                IngestFault,
            >((prefecture_models(d.prefectures@), city_models(d.cities@))),
            Err(e) => divide_spec(feature_views(features@)) == Err::<
                (Seq<PrefectureModel>, Seq<CityModel>),
                IngestFault,
            >(e@),
        },
{
    let ghost fs = feature_views(features@);
    let mut prefectures: Vec<PrefectureRecord> = Vec::new();
    let mut cities: Vec<CityRecord> = Vec::new();
    let n = features.len();
    let mut i: usize = 0;
    proof {
        assert(fs.take(0) =~= Seq::<Seq<(String, PropertyValue)>>::empty());
        assert(prefecture_models(prefectures@) =~= Seq::<PrefectureModel>::empty());
        assert(city_models(cities@) =~= Seq::<CityModel>::empty());
    }
    while i < n
        invariant
            n == features@.len(),
            fs == feature_views(features@),
            0 <= i <= n,
            divide_spec(fs.take(i as int)) == Ok::<
                (Seq<PrefectureModel>, Seq<CityModel>),
                IngestFault,
            >((prefecture_models(prefectures@), city_models(cities@))),
        decreases n - i,
    {
        let f = &features[i];
        proof {
            assert(fs.take(i + 1).drop_last() =~= fs.take(i as int));
            assert(fs.take(i + 1).last() == f@);
        }
        match is_prefecture(f) {
            Err(e) => {
                proof {
                    lemma_divide_error_persists(fs, i + 1);
                }
                return Err(e);
            },
            Ok(true) => match create_prefecture_feature(f, i) {
                Err(e) => {
                    proof {
                        lemma_divide_error_persists(fs, i + 1);
                    }
                    return Err(e);
                },
                Ok(p) => {
                    let ghost before = prefectures@;
                    prefectures.push(p);
                    proof {
                        assert(prefecture_models(prefectures@) =~= prefecture_models(before).push(
                            p@,
                        ));
                    }
                },
            },
            Ok(false) => match create_city_feature(f, i) {
                Err(e) => {
                    proof {
                        lemma_divide_error_persists(fs, i + 1);
                    }
                    return Err(e);
                },
                Ok(c) => {
                    let ghost before = cities@;
                    cities.push(c);
                    proof {
                        assert(city_models(cities@) =~= city_models(before).push(c@));
                    }
                },
            },
        }
        i = i + 1;
    }
    assert(fs.take(n as int) =~= fs);
    Ok(Division { prefectures, cities })
}

/// The property holds the given text.
pub open spec fn holds_text(v: PropertyValue, t: Seq<char>) -> bool {
    v is Text && v->Text_0@ == t
}

/// The properties of a stored region: its name.
pub fn prefecture_properties(p: &PrefectureRecord) -> (r: Properties)
    ensures
        r@.len() == 1,
        r@[0].0@ == "name"@,
        holds_text(r@[0].1, p.name@),
{
    let mut r: Properties = Vec::new();
    r.push((String::from_str("name"), PropertyValue::Text(p.name.clone())));
    r
}

/// The properties of a stored sub-region: code, area (null where it has
/// none) and name, in that order.
pub fn city_properties(c: &CityRecord) -> (r: Properties)
    ensures
        r@.len() == 3,
        r@[0].0@ == "code"@,
        holds_text(r@[0].1, c.code@),
        r@[1].0@ == "area"@,
        match c.area {
            Some(a) => holds_text(r@[1].1, a@),
            None => r@[1].1 is Null,
        },
        r@[2].0@ == "name"@,
        holds_text(r@[2].1, c.name@),
{
    let mut r: Properties = Vec::new();
    r.push((String::from_str("code"), PropertyValue::Text(c.code.clone())));
    let area = match &c.area {
        Some(a) => PropertyValue::Text(a.clone()),
        None => PropertyValue::Null,
    };
    r.push((String::from_str("area"), area));
    r.push((String::from_str("name"), PropertyValue::Text(c.name.clone())));
    r
}

} // verus!
