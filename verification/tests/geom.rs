use geos::coord_seq::CoordSeq;
use geos::error::Error;
use geos::geom::{EngineCall, GGeom, SafeCObj, SeqTransfer, Transfer};
use geos::resource::Refusal;
use geos::types::GEOSGeomTypes;

fn geom(handle: usize) -> GGeom<f64> {
    GGeom::new_from_c_obj(handle, 0.0, 2).unwrap()
}

fn inert_geom() -> GGeom<f64> {
    let mut g = geom(77);
    let _ = g.take();
    g
}

#[test]
fn new_from_c_obj_keeps_what_the_engine_gave() {
    let g = GGeom::new_from_c_obj(4096, 1.0f64, 3).unwrap();
    assert_eq!(g.handle().unwrap(), 4096);
    assert_eq!(g.area(), 1.0);
    assert_eq!(g.type_id(), 3);
    assert_eq!(g.kind(), GEOSGeomTypes::GEOS_POLYGON);
    assert!(!g.is_inert());
}

#[test]
fn new_from_c_obj_null_is_invalid_geometry() {
    let Refusal { error, release } = GGeom::new_from_c_obj(0, 0.0f64, 0).unwrap_err();
    assert!(matches!(error, Error::InvalidGeometry));
    assert!(release.is_empty());
}

#[test]
fn new_from_c_obj_refuses_an_unknown_kind() {
    for id in [-1, 8, 42, i32::MIN, i32::MAX] {
        let Refusal { error, release } = GGeom::new_from_c_obj(10, 0.0f64, id).unwrap_err();
        assert!(matches!(error, Error::InvalidGeometry));
        assert_eq!(release, vec![10]);
    }
    for id in 0..8 {
        assert_eq!(GGeom::new_from_c_obj(10, 0.0f64, id).unwrap().type_id(), id);
    }
}

#[test]
fn inert_value_lends_no_handle() {
    let g = inert_geom();
    assert!(g.is_inert());
    assert!(matches!(g.handle(), Err(Error::NoConstructionFromNullPtr)));
}

#[test]
fn dispose_gives_the_handle_once() {
    let mut g = geom(10);
    assert_eq!(g.dispose(), Some(10));
    assert_eq!(g.dispose(), None);
    assert!(g.is_inert());
    assert_eq!(g.type_id(), 2);
}

#[test]
fn take_leaves_an_inert_value() {
    let mut g = GGeom::new_from_c_obj(10, 2.5f64, 3).unwrap();
    let mut moved = g.take();
    assert_eq!(g.dispose(), None);
    assert_eq!(moved.area(), 2.5);
    assert_eq!(moved.type_id(), 3);
    assert_eq!(moved.dispose(), Some(10));
}

#[test]
fn duplicate_owns_the_copy_only() {
    let mut g = GGeom::new_from_c_obj(10, 2.5f64, 3).unwrap();
    let mut c = g.duplicate(11).unwrap();
    assert_eq!(c.area(), 2.5);
    assert_eq!(c.type_id(), 3);
    assert_eq!(c.handle().unwrap(), 11);
    assert_eq!(c.dispose(), Some(11));
    assert_eq!(c.dispose(), None);
    assert_eq!(g.handle().unwrap(), 10);
    assert_eq!(g.area(), 2.5);
    assert_eq!(g.dispose(), Some(10));
}

#[test]
fn duplicate_of_a_failed_copy_is_invalid_geometry() {
    let g = geom(10);
    let Refusal { error, release } = g.duplicate(0).unwrap_err();
    assert!(matches!(error, Error::InvalidGeometry));
    assert!(release.is_empty());
}

#[test]
fn duplicate_under_the_same_handle_is_refused() {
    let mut g = geom(10);
    let Refusal { error, release } = g.duplicate(10).unwrap_err();
    assert!(matches!(error, Error::InvalidGeometry));
    assert!(release.is_empty());
    assert_eq!(g.dispose(), Some(10));
}

#[test]
fn duplicate_of_an_inert_value_releases_what_came() {
    let g = inert_geom();
    let Refusal { error, release } = g.duplicate(11).unwrap_err();
    assert!(matches!(error, Error::NoConstructionFromNullPtr));
    assert_eq!(release, vec![11]);
    let Refusal { release, .. } = g.duplicate(0).unwrap_err();
    assert!(release.is_empty());
}

#[test]
fn steal_from_holds_the_handle() {
    let mut g = GGeom::new_from_c_obj(5, 1.5f64, 3).unwrap();
    let held = SafeCObj::steal_from(&mut g);
    assert_eq!(held.as_ptr(), 5);
    assert_eq!(held.release(), 5);
    assert!(g.is_inert());
    assert_eq!(g.dispose(), None);
    assert_eq!((g.area(), g.type_id()), (1.5, 3));
    let nothing = SafeCObj::steal_from(&mut inert_geom());
    assert_eq!(nothing.as_ptr(), 0);
    assert_eq!(SafeCObj::steal_from(&mut g).release(), 0);
}

#[test]
fn holder_gives_the_handle_once() {
    let mut held = SafeCObj::steal_from(&mut geom(5));
    assert_eq!(held.dispose(), Some(5));
    assert_eq!(held.dispose(), None);
    let mut held = SafeCObj::steal_from(&mut geom(6));
    let moved = held.take();
    assert_eq!(held.dispose(), None);
    assert_eq!(moved.release(), 6);
}

fn polygon_transfer() -> Transfer {
    GGeom::create_polygon(geom(1), vec![geom(2), geom(3)]).unwrap()
}

#[test]
fn create_polygon_passes_the_handles_in_order() {
    match polygon_transfer().call() {
        EngineCall::CreatePolygon { shell, holes, nholes } => {
            assert_eq!(shell, 1);
            assert_eq!(holes, vec![2, 3]);
            assert_eq!(nholes, 2);
        }
        other => panic!("unexpected call {:?}", other),
    }
}

#[test]
fn create_polygon_without_holes() {
    let t = GGeom::create_polygon(geom(9), vec![]).unwrap();
    match t.call() {
        EngineCall::CreatePolygon { shell, holes, nholes } => {
            assert_eq!(shell, 9);
            assert!(holes.is_empty());
            assert_eq!(nholes, 0);
        }
        other => panic!("unexpected call {:?}", other),
    }
}

#[test]
fn settle_on_success_releases_nothing() {
    let r = polygon_transfer().settle(40);
    assert_eq!(r.unwrap(), 40);
}

#[test]
fn settle_on_failure_releases_every_input_once() {
    let Refusal { error, release } = polygon_transfer().settle(0).unwrap_err();
    assert!(matches!(error, Error::InvalidGeometry));
    assert_eq!(release, vec![1, 2, 3]);
}

#[test]
fn create_polygon_with_an_inert_hole_is_refused() {
    let r = GGeom::create_polygon(geom(1), vec![geom(2), inert_geom(), geom(4)]);
    let Refusal { error, release } = r.unwrap_err();
    assert!(matches!(error, Error::NoConstructionFromNullPtr));
    assert_eq!(release, vec![1, 2, 4]);
}

#[test]
fn create_polygon_with_an_inert_exterior_is_refused() {
    let r = GGeom::create_polygon(inert_geom(), vec![geom(2)]);
    let Refusal { error, release } = r.unwrap_err();
    assert!(matches!(error, Error::NoConstructionFromNullPtr));
    assert_eq!(release, vec![2]);
}

#[test]
fn create_mulipolygon_passes_the_parts_in_order() {
    let t = GGeom::create_mulipolygon(vec![geom(7), geom(8)]).unwrap();
    match t.call() {
        EngineCall::CreateCollection { type_id, geoms, ngeoms } => {
            assert_eq!(type_id, 6);
            assert_eq!(geoms, vec![7, 8]);
            assert_eq!(ngeoms, 2);
        }
        other => panic!("unexpected call {:?}", other),
    }
    let t = GGeom::create_mulipolygon(vec![geom(7), geom(8)]).unwrap();
    assert_eq!(t.settle(50).unwrap(), 50);
}

#[test]
fn create_mulipolygon_failure_releases_every_part_once() {
    let t = GGeom::create_mulipolygon(vec![geom(7), geom(8), geom(9)]).unwrap();
    let Refusal { error, release } = t.settle(0).unwrap_err();
    assert!(matches!(error, Error::InvalidGeometry));
    assert_eq!(release, vec![7, 8, 9]);
}

#[test]
fn create_mulipolygon_with_an_inert_part_is_refused() {
    let r = GGeom::create_mulipolygon(vec![inert_geom(), geom(8)]);
    let Refusal { error, release } = r.unwrap_err();
    assert!(matches!(error, Error::NoConstructionFromNullPtr));
    assert_eq!(release, vec![8]);
}

#[test]
fn create_mulipolygon_of_nothing() {
    let t = GGeom::<f64>::create_mulipolygon(vec![]).unwrap();
    match t.call() {
        EngineCall::CreateCollection { type_id, geoms, ngeoms } => {
            assert_eq!(type_id, GEOSGeomTypes::GEOS_MULTIPOLYGON.type_id());
            assert!(geoms.is_empty());
            assert_eq!(ngeoms, 0);
        }
        other => panic!("unexpected call {:?}", other),
    }
}

fn ring_transfer(size: u32) -> Result<SeqTransfer, Refusal> {
    GGeom::<f64>::create_linear_ring(CoordSeq::new_from_c_obj(21, size, 2))
}

#[test]
fn linear_ring_of_one_point_is_invalid_geometry() {
    let Refusal { error, release } = ring_transfer(1).unwrap_err();
    assert!(matches!(error, Error::InvalidGeometry));
    assert_eq!(release, vec![21]);
}

#[test]
fn linear_ring_hands_the_sequence_over() {
    let t = ring_transfer(5).unwrap();
    assert!(matches!(t.call(), EngineCall::CreateLinearRing { seq: 21 }));
    assert_eq!(t.settle(30).unwrap(), 30);
    let Refusal { error, release } = ring_transfer(5).unwrap().settle(0).unwrap_err();
    assert!(matches!(error, Error::InvalidGeometry));
    assert_eq!(release, vec![21]);
}

#[test]
fn empty_linear_ring_is_handed_over() {
    assert!(ring_transfer(0).is_ok());
}

#[test]
fn inert_sequence_is_refused() {
    let r = GGeom::<f64>::create_linear_ring(CoordSeq::new_from_c_obj(0, 5, 2));
    let Refusal { error, release } = r.unwrap_err();
    assert!(matches!(error, Error::NoConstructionFromNullPtr));
    assert!(release.is_empty());
    let r = GGeom::<f64>::create_line_string(CoordSeq::new_from_c_obj(0, 5, 2));
    let Refusal { error, release } = r.unwrap_err();
    assert!(matches!(error, Error::NoConstructionFromNullPtr));
    assert!(release.is_empty());
}

#[test]
fn line_string_of_one_point_is_handed_over() {
    let t = GGeom::<f64>::create_line_string(CoordSeq::new_from_c_obj(21, 1, 2)).unwrap();
    assert!(matches!(t.call(), EngineCall::CreateLineString { seq: 21 }));
}

#[test]
fn point_uses_the_sequence_up() {
    let t = GGeom::<f64>::create_point(CoordSeq::new_from_c_obj(21, 1, 2)).unwrap();
    assert!(matches!(t.call(), EngineCall::CreatePoint { seq: 21 }));
    assert_eq!(t.settle(31).unwrap(), 31);
}

#[test]
fn point_that_the_engine_refuses_releases_the_sequence() {
    let t = GGeom::<f64>::create_point(CoordSeq::new_from_c_obj(21, 1, 2)).unwrap();
    let Refusal { error, release } = t.settle(0).unwrap_err();
    assert!(matches!(error, Error::InvalidGeometry));
    assert_eq!(release, vec![21]);
}

#[test]
fn point_of_an_inert_sequence_is_refused() {
    let mut s = CoordSeq::new_from_c_obj(21, 1, 2);
    let moved = s.take();
    let Refusal { error, release } = GGeom::<f64>::create_point(s).unwrap_err();
    assert!(matches!(error, Error::NoConstructionFromNullPtr));
    assert!(release.is_empty());
    assert!(GGeom::<f64>::create_point(moved).is_ok());
}

#[test]
fn get_coord_seq_by_kind() {
    for kind in 0..3 {
        let g = GGeom::new_from_c_obj(10, 0.0f64, kind).unwrap();
        assert!(g.has_coord_seq());
        let s = g.get_coord_seq(60, 4, 3).unwrap();
        assert_eq!((s.handle().unwrap(), s.size(), s.dims()), (60, 4, 3));
        assert_eq!(
            g.get_coord_seq(0, 4, 3).unwrap_err(),
            "Error retrieving Coordinates Sequence"
        );
    }
    for kind in [3, 4, 5, 6, 7] {
        let g = GGeom::new_from_c_obj(10, 0.0f64, kind).unwrap();
        assert!(!g.has_coord_seq());
        assert_eq!(
            g.get_coord_seq(60, 4, 3).unwrap_err(),
            "Not implemented - Geometry must be a Point, LineString or LinearRing"
        );
    }
}

#[test]
fn polygon_example_as_the_engine_answers_it() {
    let g = GGeom::new_from_c_obj(4096, 1.0f64, GEOSGeomTypes::GEOS_POLYGON.type_id()).unwrap();
    assert_eq!(g.area(), 1.0);
    assert_eq!(g.kind(), GEOSGeomTypes::GEOS_POLYGON);
    assert_eq!(geos::reply::predicate(1), Some(true));
    assert_eq!(geos::reply::predicate(0), Some(false));
}
