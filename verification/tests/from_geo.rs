use geos::error::Error;
use geos::from_geo::{
    Axis, LineString, MultiPolygon, MultiPolygonPlan, Point, Polygon, PolygonPlan, RingPlan,
    TryInto,
};

fn unit_square() -> LineString<f64> {
    LineString(vec![
        Point::new(0., 0.),
        Point::new(0., 1.),
        Point::new(1., 1.),
        Point::new(1., 0.),
        Point::new(0., 0.),
    ])
}

fn inner_square() -> LineString<f64> {
    LineString(vec![
        Point::new(0.1, 0.1),
        Point::new(0.1, 0.9),
        Point::new(0.9, 0.9),
        Point::new(0.9, 0.1),
        Point::new(0.1, 0.1),
    ])
}

fn ring_plan(ring: &LineString<f64>) -> Result<RingPlan<f64>, Error> {
    TryInto::try_into(ring)
}

fn polygon_plan(polygon: &Polygon<f64>) -> Result<PolygonPlan<f64>, Error> {
    TryInto::try_into(polygon)
}

fn multi_polygon_plan(multi: &MultiPolygon<f64>) -> Result<MultiPolygonPlan<f64>, Error> {
    TryInto::try_into(multi)
}

fn assert_plan_of(plan: &RingPlan<f64>, ring: &LineString<f64>) {
    assert_eq!(plan.size as usize, ring.0.len());
    assert_eq!(plan.dims, 2);
    assert_eq!(plan.writes.len(), 2 * ring.0.len());
    for (i, p) in ring.0.iter().enumerate() {
        let x = &plan.writes[2 * i];
        let y = &plan.writes[2 * i + 1];
        assert_eq!((x.index as usize, x.axis, x.value), (i, Axis::X, p.x));
        assert_eq!((y.index as usize, y.axis, y.value), (i, Axis::Y, p.y));
    }
}

#[test]
fn polygon_contains_test() {
    let exterior = unit_square();
    let interiors = vec![inner_square()];
    let p = Polygon::new(exterior.clone(), interiors.clone());

    assert_eq!(p.exterior, exterior);
    assert_eq!(p.interiors, interiors);

    let plan = polygon_plan(&p).unwrap();
    assert_plan_of(&plan.exterior, &exterior);
    assert_eq!(plan.interiors.len(), 1);
    assert_plan_of(&plan.interiors[0], &interiors[0]);

    let ring = ring_plan(&exterior).unwrap();
    assert_plan_of(&ring, &exterior);
}

#[test]
fn multipolygon_contains_test() {
    let exterior = unit_square();
    let interiors = vec![inner_square()];
    let p = Polygon::new(exterior.clone(), interiors.clone());
    let mp = MultiPolygon(vec![p.clone()]);

    let geom = multi_polygon_plan(&mp);
    if geom.is_err() {
        return;
    }
    let plan = multi_polygon_plan(&mp).unwrap();
    assert_eq!(plan.polygons.len(), 1);
    assert_plan_of(&plan.polygons[0].exterior, &exterior);
    assert_plan_of(&plan.polygons[0].interiors[0], &interiors[0]);

    let single = polygon_plan(&p).unwrap();
    assert_eq!(single.exterior.writes.len(), plan.polygons[0].exterior.writes.len());
}

#[test]
fn incorrect_multipolygon_test() {
    let exterior = LineString(vec![Point::new(0., 0.)]);
    let interiors = vec![];
    let p = Polygon::new(exterior.clone(), interiors.clone());
    let mp = MultiPolygon(vec![p.clone()]);

    let geom = multi_polygon_plan(&mp);

    assert!(geom.is_err());
}

#[test]
fn single_point_ring_is_invalid_geometry() {
    let ring = LineString(vec![Point::new(3.5, -2.0)]);
    assert!(matches!(ring_plan(&ring), Err(Error::InvalidGeometry)));
}

#[test]
fn single_point_exterior_fails_the_multipolygon_with_invalid_geometry() {
    let bad = Polygon::new(LineString(vec![Point::new(0., 0.)]), vec![]);
    let good = Polygon::new(unit_square(), vec![inner_square()]);
    let mp = MultiPolygon(vec![bad, good]);
    assert!(matches!(multi_polygon_plan(&mp), Err(Error::InvalidGeometry)));
}

#[test]
fn empty_ring_has_an_empty_plan() {
    let ring: LineString<f64> = LineString(vec![]);
    let plan = ring_plan(&ring).unwrap();
    assert_eq!(plan.size, 0);
    assert_eq!(plan.dims, 2);
    assert!(plan.writes.is_empty());
}

#[test]
fn two_point_ring_is_left_to_the_engine() {
    let ring = LineString(vec![Point::new(1., 2.), Point::new(3., 4.)]);
    let plan = ring_plan(&ring).unwrap();
    assert_eq!(plan.size, 2);
    let got: Vec<(u32, Axis, f64)> =
        plan.writes.iter().map(|w| (w.index, w.axis, w.value)).collect();
    assert_eq!(
        got,
        vec![(0, Axis::X, 1.), (0, Axis::Y, 2.), (1, Axis::X, 3.), (1, Axis::Y, 4.)]
    );
}

#[test]
fn first_refused_ring_decides_for_the_polygon() {
    let p = Polygon::new(
        unit_square(),
        vec![inner_square(), LineString(vec![Point::new(0.5, 0.5)]), inner_square()],
    );
    assert!(matches!(polygon_plan(&p), Err(Error::InvalidGeometry)));
}

#[test]
fn refused_part_leaves_no_plan_for_the_others() {
    let good = Polygon::new(unit_square(), vec![]);
    let bad = Polygon::new(unit_square(), vec![LineString(vec![Point::new(0.2, 0.2)])]);
    let mp = MultiPolygon(vec![good.clone(), bad, good]);
    assert!(multi_polygon_plan(&mp).is_err());
}

#[test]
fn empty_multipolygon_has_an_empty_plan() {
    let mp: MultiPolygon<f64> = MultiPolygon(vec![]);
    let plan = multi_polygon_plan(&mp).unwrap();
    assert!(plan.polygons.is_empty());
}
