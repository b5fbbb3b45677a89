//! Checking a source file's declared fields and shape type before ingestion.

use vstd::prelude::*;

verus! {

/// The declared type of an attribute field of a vector file.
#[derive(Debug, Clone, Copy, PartialEq, Eq, Structural)]
pub enum FieldKind {
    Character,
    Currency,
    Date,
    DateTime,
    Double,
    Float,
    Integer,
    Logical,
    Memo,
    Numeric,
}

/// The geometry type that a shape file declares for all its shapes.
#[derive(Debug, Clone, Copy, PartialEq, Eq, Structural)]
pub enum ShapeKind {
    NullShape,
    Point,
    Polyline,
    Polygon,
    Multipoint,
    PointZ,
    PolylineZ,
    PolygonZ,
    MultipointZ,
    PointM,
    PolylineM,
    PolygonM,
    MultipointM,
    Multipatch,
}

/// A list of field declarations: (name, declared type).
pub type Schema = Vec<(String, FieldKind)>;

/// Why a source file's schema was refused.
#[derive(Debug, Clone)]
pub enum SchemaError {
    /// The source declares a field that the expected schema lacks.
    UnexpectedField(String),
    /// The source declares a field with another type than expected.
    TypeMismatch { name: String, expected: FieldKind, actual: FieldKind },
    /// The file holds shapes of another geometry type than expected.
    UnexpectedShape { expected: ShapeKind, actual: ShapeKind },
}

/// The model of a `SchemaError`.
pub enum SchemaFault {
    UnexpectedField(Seq<char>),
    TypeMismatch(Seq<char>, FieldKind, FieldKind),
    UnexpectedShape(ShapeKind, ShapeKind),
}

impl View for SchemaError {
    type V = SchemaFault;

    open spec fn view(&self) -> SchemaFault {
        match self {
            SchemaError::UnexpectedField(n) => SchemaFault::UnexpectedField(n@),
            SchemaError::TypeMismatch { name, expected, actual } => SchemaFault::TypeMismatch(
                name@,
                *expected,
                *actual,
            ),
            SchemaError::UnexpectedShape { expected, actual } => SchemaFault::UnexpectedShape(
                *expected,
                *actual,
            ),
        }
    }
}

/// The declared type of the first field named `name`, if any.
pub open spec fn declared(schema: Seq<(String, FieldKind)>, name: Seq<char>) -> Option<FieldKind>
    decreases schema.len(),
{
    if schema.len() == 0 {
        None
    } else if schema[0].0@ == name {
        Some(schema[0].1)
    } else {
        declared(schema.drop_first(), name)
    }
}

/// Validating source fields against an expected schema, field by field in
/// source order: the first source field that the schema lacks, or declares
/// with another type, decides the error.
pub open spec fn validate_spec(source: Seq<(String, FieldKind)>, expected: Seq<(String, FieldKind)>) -> Result<
    (),
    SchemaFault,
>
    decreases source.len(),
{
    if source.len() == 0 {
        Ok(())
    } else {
        match declared(expected, source[0].0@) {
            None => Err(SchemaFault::UnexpectedField(source[0].0@)),
            Some(t) => if t != source[0].1 {
                Err(SchemaFault::TypeMismatch(source[0].0@, t, source[0].1))
            } else {
                validate_spec(source.drop_first(), expected)
            },
        }
    }
}

pub open spec fn unit_result_view(r: Result<(), SchemaError>) -> Result<(), SchemaFault> {
    match r {
        Ok(()) => Ok(()),
        Err(e) => Err(e@),
    }
}

proof fn lemma_declared_step(schema: Seq<(String, FieldKind)>, name: Seq<char>, i: int)
    requires
        0 <= i < schema.len(),
        schema[i].0@ != name,
    ensures
        declared(schema.subrange(i, schema.len() as int), name) == declared(
            schema.subrange(i + 1, schema.len() as int),
            name,
        ),
{
    assert(schema.subrange(i, schema.len() as int).drop_first() =~= schema.subrange(
        i + 1,
        schema.len() as int,
    ));
}

/// The declared type of the first field of `schema` named `name`.
pub fn declared_kind(schema: &Schema, name: &String) -> (r: Option<FieldKind>)
    ensures
        r == declared(schema@, name@),
{
    let n = schema.len();
    let mut i: usize = 0;
    assert(schema@.subrange(0, n as int) =~= schema@);
    while i < n
        invariant
            n == schema@.len(),
            0 <= i <= n,
            declared(schema@, name@) == declared(schema@.subrange(i as int, n as int), name@),
        decreases n - i,
    {
        if schema[i].0 == *name {
            return Some(schema[i].1);
        }
        proof {
            lemma_declared_step(schema@, name@, i as int);
        }
        i = i + 1;
    }
    None
}

/// Checks every field declared by a source file against the expected
/// schema, before any record is read. Expected fields that the source
/// lacks are no error here.
pub fn validate(source: &Schema, expected: &Schema) -> (r: Result<(), SchemaError>)
    ensures
        unit_result_view(r) == validate_spec(source@, expected@),
{
    let n = source.len();
    let mut i: usize = 0;
    assert(source@.subrange(0, n as int) =~= source@);
    while i < n
        invariant
            n == source@.len(),
            0 <= i <= n,
            validate_spec(source@, expected@) == validate_spec(
                source@.subrange(i as int, n as int),
                expected@,
            ),
        decreases n - i,
    {
        let ghost rest = source@.subrange(i as int, n as int);
        assert(rest[0] == source@[i as int]);
        assert(rest.drop_first() =~= source@.subrange(i + 1, n as int));
        let name = &source[i].0;
        let actual = source[i].1;
        match declared_kind(expected, name) {
            None => {
                return Err(SchemaError::UnexpectedField(name.clone()));
            },
            Some(t) => {
                if t != actual {
                    return Err(SchemaError::TypeMismatch { name: name.clone(), expected: t, actual });
                }
            },
        }
        i = i + 1;
    }
    Ok(())
}

/// Checks that a shape file holds point shapes.
pub fn expect_point_shapes(actual: ShapeKind) -> (r: Result<(), SchemaError>)
    ensures
        r is Ok <==> actual == ShapeKind::Point,
        r is Err ==> r->Err_0@ == SchemaFault::UnexpectedShape(ShapeKind::Point, actual),
{
    if actual == ShapeKind::Point {
        Ok(())
    } else {
        Err(SchemaError::UnexpectedShape { expected: ShapeKind::Point, actual })
    }
}

/// Every source field is declared by the schema with the same type.
pub open spec fn conforms(source: Seq<(String, FieldKind)>, expected: Seq<(String, FieldKind)>) -> bool {
    forall|i: int| 0 <= i < source.len() ==> declared(expected, (#[trigger] source[i]).0@) == Some(source[i].1)
}

/// Validation accepts a source schema exactly when each of its fields is
/// declared by the expected schema with the same type: it rejects a field
/// that the expected schema lacks, and one declared with another type.
pub proof fn lemma_validate_accepts_conforming(
    source: Seq<(String, FieldKind)>,
    expected: Seq<(String, FieldKind)>,
)
    ensures
        validate_spec(source, expected) is Ok <==> conforms(source, expected),
        forall|i: int|
            0 <= i < source.len() && declared(expected, (#[trigger] source[i]).0@) is None
                ==> validate_spec(source, expected) is Err,
        forall|i: int|
            0 <= i < source.len() && declared(expected, (#[trigger] source[i]).0@) is Some
                && declared(expected, source[i].0@) != Some(source[i].1) ==> validate_spec(
                source,
                expected,
            ) is Err,
    decreases source.len(),
{
    if source.len() > 0 {
        lemma_validate_accepts_conforming(source.drop_first(), expected);
        if conforms(source, expected) {
            assert forall|i: int| 0 <= i < source.drop_first().len() implies declared(
                expected,
                (#[trigger] source.drop_first()[i]).0@,
            ) == Some(source.drop_first()[i].1) by {
                assert(source.drop_first()[i] == source[i + 1]);
            }
        }
        if validate_spec(source, expected) is Ok {
            assert forall|i: int| 0 <= i < source.len() implies declared(
                expected,
                (#[trigger] source[i]).0@,
            ) == Some(source[i].1) by {
                if i > 0 {
                    assert(source[i] == source.drop_first()[i - 1]);
                }
            }
        }
    }
}

/// Names no two fields alike.
pub open spec fn distinct_names(schema: Seq<(String, FieldKind)>) -> bool {
    forall|i: int, j: int|
        0 <= i < schema.len() && 0 <= j < schema.len() && i != j ==> (#[trigger] schema[i]).0@
            != (#[trigger] schema[j]).0@
}

proof fn lemma_declared_at(schema: Seq<(String, FieldKind)>, i: int)
    requires
        0 <= i < schema.len(),
        distinct_names(schema),
    ensures
        declared(schema, schema[i].0@) == Some(schema[i].1),
    decreases schema.len(),
{
    if i > 0 {
        assert(schema[0].0@ != schema[i].0@);
        let rest = schema.drop_first();
        assert(rest[i - 1] == schema[i]);
        assert forall|a: int, b: int|
            0 <= a < rest.len() && 0 <= b < rest.len() && a != b implies (#[trigger] rest[a]).0@
            != (#[trigger] rest[b]).0@ by {
            assert(rest[a] == schema[a + 1] && rest[b] == schema[b + 1]);
        }
        lemma_declared_at(rest, i - 1);
    }
}

/// A source schema whose field names are distinct validates against itself.
pub proof fn lemma_validate_accepts_exact_match(schema: Seq<(String, FieldKind)>)
    requires
        distinct_names(schema),
    ensures
        validate_spec(schema, schema) is Ok,
{
    assert forall|i: int| 0 <= i < schema.len() implies declared(
        schema,
        (#[trigger] schema[i]).0@,
    ) == Some(schema[i].1) by {
        lemma_declared_at(schema, i);
    }
    lemma_validate_accepts_conforming(schema, schema);
}

} // verus!
