use vstd::prelude::*;
use geojson::Feature;
use geojson::Value;

verus! {

/// Why an input or output record was refused.
#[derive(Debug, Clone, Copy, PartialEq, Eq, Structural)]
pub enum RecordError {
    /// The coordinates of an input record are not a longitude-latitude pair.
    MalformedCoordinates,
    /// A returned feature carries a geometry other than a point.
    NotAPoint,
}

/// The kind of geometry that a returned feature carries.
#[derive(Debug, Clone, Copy, PartialEq, Eq, Structural)]
pub enum GeometryShape {
    Absent,
    Point,
    Other,
}

/// The kind of geometry a feature carries.
pub uninterp spec fn geometry_shape_of(f: Feature) -> GeometryShape;

/// Relies on geojson's `Feature::geometry` and its `Value` variants: tells
/// a missing geometry, a point and any other geometry apart.
#[verifier::external_body]
fn geometry_shape(f: &Feature) -> (r: GeometryShape)
    ensures
        r == geometry_shape_of(*f),
{
    match &f.geometry {
        None => GeometryShape::Absent,
        Some(g) => match &g.value {
            Value::Point(_) => GeometryShape::Point,
            _ => GeometryShape::Other,
        },
    }
}

/// The geometry kind of each feature, in order.
pub fn feature_shapes(features: &Vec<Feature>) -> (r: Vec<GeometryShape>)
    ensures
        r@.len() == features@.len(),
        forall|i: int| 0 <= i < r@.len() ==> r@[i] == geometry_shape_of(#[trigger] features@[i]),
{
    let mut out: Vec<GeometryShape> = Vec::with_capacity(features.len());
    let mut i: usize = 0;
    while i < features.len()
        invariant
            i <= features.len(),
            out@.len() == i,
            forall|k: int| 0 <= k < i ==> out@[k] == geometry_shape_of(#[trigger] features@[k]),
        decreases features.len() - i,
    {
        out.push(geometry_shape(&features[i]));
        i = i + 1;
    }
    out
}

/// Returned features must carry a point geometry, or none.
pub fn check_features(features: &Vec<Feature>) -> (r: Result<(), RecordError>)
    ensures
        r is Ok <==> forall|i: int| 0 <= i < features@.len() ==> geometry_shape_of(#[trigger] features@[i])
            != GeometryShape::Other,
        r is Err ==> r == Err::<(), RecordError>(RecordError::NotAPoint),
{
    let shapes = feature_shapes(features);
    let r = check_point_shapes(&shapes);
    proof {
        if r is Ok {
            assert forall|i: int| 0 <= i < features@.len() implies geometry_shape_of(#[trigger] features@[i])
                != GeometryShape::Other by {
                assert(shapes@[i] != GeometryShape::Other);
            }
        } else {
            let k = choose|k: int| 0 <= k < shapes@.len() && shapes@[k] == GeometryShape::Other;
            assert(geometry_shape_of(features@[k]) == GeometryShape::Other);
        }
    }
    r
}

/// An input record's coordinates must be exactly a pair.
pub fn check_coordinate_count(len: usize) -> (r: Result<(), RecordError>)
    ensures
        r is Ok <==> len == 2,
        r is Err ==> r == Err::<(), RecordError>(RecordError::MalformedCoordinates),
{
    if len == 2 {
        Ok(())
    } else {
        Err(RecordError::MalformedCoordinates)
    }
}

pub open spec fn all_point_shaped(shapes: Seq<GeometryShape>) -> bool {
    forall|i: int| 0 <= i < shapes.len() ==> shapes[i] != GeometryShape::Other
}

/// Returned features must carry a point geometry, or none.
pub fn check_point_shapes(shapes: &Vec<GeometryShape>) -> (r: Result<(), RecordError>)
    ensures
        r is Ok <==> all_point_shaped(shapes@),
        r is Err ==> r == Err::<(), RecordError>(RecordError::NotAPoint),
{
    let mut i: usize = 0;
    while i < shapes.len()
        invariant
            i <= shapes.len(),
            all_point_shaped(shapes@.subrange(0, i as int)),
        decreases shapes.len() - i,
    {
        if shapes[i] == GeometryShape::Other {
            return Err(RecordError::NotAPoint);
        }
        i = i + 1;
        proof {
            assert forall|k: int| 0 <= k < i implies #[trigger] shapes@.subrange(0, i as int)[k]
                != GeometryShape::Other by {
                if k < i - 1 {
                    assert(shapes@.subrange(0, i as int)[k] == shapes@.subrange(0, i - 1)[k]);
                }
            }
        }
    }
    assert(shapes@.subrange(0, i as int) =~= shapes@);
    Ok(())
}

} // verus!
