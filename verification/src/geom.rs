//! Geometry values and the hand-over of several of them to one engine call.

use vstd::prelude::*;
use vstd::string::StringExecFns;
use crate::coord_seq::CoordSeq;
use crate::error::Error;
use crate::resource::{
    all_owned, lemma_owned_is_not_null, lemma_owned_of_all_owned, lemma_owned_push,
    lemma_owned_single, owned, raw_of, Refusal, Resource,
};
use crate::types::GEOSGeomTypes;

verus! {

/// A geometry of the engine, with what the binding remembers of it.
#[derive(Debug)]
pub struct GGeom<T> {
    c_obj: Resource,
    area: T,
    kind: GEOSGeomTypes,
}

/// What a geometry value is to its users.
pub struct GeomView<T> {
    /// The handle of the engine's geometry while it is owned.
    pub owner: Option<usize>,
    /// The area that the engine measured when the value was made.
    pub area: T,
    /// The kind of geometry.
    pub kind: GEOSGeomTypes,
}

impl<T> View for GGeom<T> {
    type V = GeomView<T>;

    closed spec fn view(&self) -> GeomView<T> {
        GeomView { owner: self.c_obj@, area: self.area, kind: self.kind }
    }
}

/// Holds a geometry handle that was taken away from its `GGeom` on the way
/// into an engine call that will own it.
#[derive(Debug)]
pub struct SafeCObj {
    c_obj: Resource,
}

impl View for SafeCObj {
    type V = Option<usize>;

    /// The handle that is held, if any.
    closed spec fn view(&self) -> Option<usize> {
        self.c_obj@
    }
}

impl SafeCObj {
    /// Takes the handle out of a geometry and leaves the geometry inert:
    /// nothing is owed for it any more, the holder answers for the handle.
    pub fn steal_from<T>(geom: &mut GGeom<T>) -> (held: SafeCObj)
        ensures
            held@ == old(geom)@.owner,
            final(geom)@ == (GeomView { owner: None, ..old(geom)@ }),
    {
        SafeCObj { c_obj: geom.c_obj.take() }
    }

    /// Lets go of the handle after the engine took it over, and returns it.
    pub fn release(self) -> (raw: usize)
        ensures
            raw == raw_of(self@),
    {
        self.c_obj.release()
    }

    /// The bare handle for the engine call; null when nothing is held.
    pub fn as_ptr(&self) -> (raw: usize)
        ensures
            raw == raw_of(self@),
    {
        self.c_obj.as_ptr()
    }

    /// Moves what is held out into a new holder and leaves this one empty.
    pub fn take(&mut self) -> (moved: SafeCObj)
        ensures
            moved@ == old(self)@,
            final(self)@ is None,
    {
        SafeCObj { c_obj: self.c_obj.take() }
    }

    /// Ends the holder's life: returns the handle that has to be handed back
    /// to the engine now, if one is held, and leaves the holder empty.
    pub fn dispose(&mut self) -> (due: Option<usize>)
        ensures
            due == old(self)@,
            final(self)@ is None,
    {
        self.c_obj.dispose()
    }
}

/// The bare handles of a row of geometries, null for an inert one.
pub open spec fn handles<T>(geoms: Seq<GGeom<T>>) -> Seq<usize> {
    Seq::new(geoms.len(), |i: int| raw_of(geoms[i]@.owner))
}

/// The engine call that a hand-over waits for, with the bare handles to pass.
#[derive(Debug)]
pub enum EngineCall {
    /// Build a point from a coordinate sequence.
    CreatePoint { seq: usize },
    /// Build a line string from a coordinate sequence.
    CreateLineString { seq: usize },
    /// Build a linear ring from a coordinate sequence.
    CreateLinearRing { seq: usize },
    /// Build a polygon from a shell and `nholes` holes.
    CreatePolygon { shell: usize, holes: Vec<usize>, nholes: u32 },
    /// Build a collection of the kind `type_id` from `ngeoms` parts.
    CreateCollection { type_id: i32, geoms: Vec<usize>, ngeoms: u32 },
}

/// Geometries on their way into one engine call that will own them all.
///
/// Their handles were taken from the `GGeom` values, which are gone. Until the
/// engine has answered, the hand-over answers for every handle; `settle` says
/// who does afterwards.
#[derive(Debug)]
pub struct Transfer {
    shell: Option<SafeCObj>,
    parts: Vec<SafeCObj>,
}

/// The bare handles that a row of holders holds.
spec fn held(holders: Seq<SafeCObj>) -> Seq<usize> {
    Seq::new(holders.len(), |i: int| raw_of(holders[i]@))
}

/// The handles of a shell, if there is one, and of the parts, in that order.
spec fn held_row(shell: Option<SafeCObj>, parts: Seq<SafeCObj>) -> Seq<usize> {
    match shell {
        Some(s) => seq![raw_of(s@)] + held(parts),
        None => held(parts),
    }
}

impl Transfer {
    #[verifier::type_invariant]
    spec fn complete(self) -> bool {
        &&& self.shell matches Some(s) ==> s@ is Some
        &&& all_owned(held(self.parts@))
        &&& self.parts@.len() <= u32::MAX
    }

    /// The handle of the shell, for a polygon; `None` for a collection.
    pub closed spec fn shell(&self) -> Option<usize> {
        match self.shell {
            Some(s) => Some(raw_of(s@)),
            None => None,
        }
    }

    /// The handles of the holes of a polygon, or of the parts of a
    /// collection, in the order in which they were given.
    pub closed spec fn parts(&self) -> Seq<usize> {
        held(self.parts@)
    }

    /// Every handle that was taken, in the order of the inputs: the shell
    /// first.
    pub open spec fn stolen(&self) -> Seq<usize> {
        match self.shell() {
            Some(s) => seq![s] + self.parts(),
            None => self.parts(),
        }
    }

    proof fn lemma_stolen_all_owned(self)
        requires
            self.complete(),
        ensures
            all_owned(self.stolen()),
    {
        let parts = self.parts();
        let all = self.stolen();
        assert forall|i: int| 0 <= i < all.len() implies all[i] != 0 by {
            match self.shell {
                Some(s) => {
                    if i > 0 {
                        assert(all[i] == parts[i - 1]);
                    } else {
                        lemma_owned_is_not_null(s.c_obj);
                    }
                },
                None => {
                    assert(all[i] == parts[i]);
                },
            }
        }
    }

    /// The engine call to make: a polygon from the shell and the holes, or a
    /// multi-polygon from the parts. The handles are passed in input order.
    pub fn call(&self) -> (call: EngineCall)
        ensures
            match call {
                EngineCall::CreatePolygon { shell, holes, nholes } => {
                    &&& self.shell() == Some(shell)
                    &&& holes@ == self.parts()
                    &&& nholes == holes@.len()
                },
                EngineCall::CreateCollection { type_id, geoms, ngeoms } => {
                    &&& self.shell() is None
                    &&& type_id == GEOSGeomTypes::GEOS_MULTIPOLYGON.spec_type_id()
                    &&& geoms@ == self.parts()
                    &&& ngeoms == geoms@.len()
                },
                _ => false,
            },
    {
        proof {
            use_type_invariant(self);
        }
        let n: usize = self.parts.len();
        let mut raws: Vec<usize> = Vec::new();
        let mut i: usize = 0;
        while i < n
            invariant
                n == self.parts@.len(),
                i <= n,
                raws@ == held(self.parts@).take(i as int),
            decreases n - i,
        {
            raws.push(self.parts[i].as_ptr());
            assert(held(self.parts@).take(i + 1) =~= held(self.parts@).take(i as int).push(
                held(self.parts@)[i as int],
            ));
            i += 1;
        }
        assert(held(self.parts@).take(n as int) =~= held(self.parts@));
        match &self.shell {
            Some(s) => EngineCall::CreatePolygon {
                shell: s.as_ptr(),
                holes: raws,
                nholes: n as u32,
            },
            None => EngineCall::CreateCollection {
                type_id: GEOSGeomTypes::GEOS_MULTIPOLYGON.type_id(),
                geoms: raws,
                ngeoms: n as u32,
            },
        }
    }

    /// Closes the hand-over with the engine's answer, the handle `built`.
    ///
    /// A handle that is not null is the new geometry: the engine owns every
    /// input as a part of it, so nothing is to be released. The null handle
    /// means that the engine refused and took nothing: every handle that was
    /// taken is then to be released, each once, in input order.
    pub fn settle(self, built: usize) -> (r: Result<usize, Refusal>)
        ensures
            built != 0 ==> r == Ok::<usize, Refusal>(built),
            built == 0 ==> (r matches Err(refusal) && refusal.error is InvalidGeometry
                && refusal.release@ == self.stolen()),
            all_owned(self.stolen()),
    {
        proof {
            use_type_invariant(&self);
            self.lemma_stolen_all_owned();
        }
        if built != 0 {
            Ok(built)
        } else {
            let Transfer { shell, parts } = self;
            let release = give_back(shell, parts);
            proof {
                lemma_owned_of_all_owned(self.stolen());
            }
            Err(Refusal { error: Error::InvalidGeometry, release })
        }
    }
}

/// Lists the handles that the holders own, in order, and lets the holders go.
fn give_back(shell: Option<SafeCObj>, parts: Vec<SafeCObj>) -> (release: Vec<usize>)
    ensures
        release@ == owned(held_row(shell, parts@)),
{
    let mut release: Vec<usize> = Vec::new();
    let ghost first: Seq<usize> = held_row(shell, Seq::empty());
    assert(held(Seq::<SafeCObj>::empty()) =~= Seq::<usize>::empty());
    match &shell {
        Some(s) => {
            let raw = s.as_ptr();
            proof {
                lemma_owned_single(raw);
                assert(seq![raw] + Seq::<usize>::empty() =~= seq![raw]);
            }
            if raw != 0 {
                release.push(raw);
            }
        },
        None => {
            proof {
                lemma_owned_single(0);
            }
        },
    }
    assert(release@ =~= owned(first));
    let n: usize = parts.len();
    let mut i: usize = 0;
    while i < n
        invariant
            n == parts@.len(),
            i <= n,
            release@ == owned(first + held(parts@).take(i as int)),
        decreases n - i,
    {
        let raw = parts[i].as_ptr();
        proof {
            let before = first + held(parts@).take(i as int);
            lemma_owned_push(before, raw);
            assert(before.push(raw) =~= first + held(parts@).take(i + 1));
        }
        if raw != 0 {
            release.push(raw);
        }
        i += 1;
    }
    assert(held(parts@).take(n as int) =~= held(parts@));
    assert(first + held(parts@) =~= held_row(shell, parts@));
    release
}

/// The handles that a polygon is made from, in input order: the exterior
/// ring's, then the interior rings'.
pub open spec fn polygon_inputs<T>(exterior: GGeom<T>, interiors: Seq<GGeom<T>>) -> Seq<usize> {
    seq![raw_of(exterior@.owner)] + handles(interiors)
}

/// Takes the handle out of every geometry of a row, in order.
fn steal_all<T>(geoms: Vec<GGeom<T>>) -> (holders: Vec<SafeCObj>)
    ensures
        held(holders@) == handles(geoms@),
        holders@.len() == geoms@.len(),
{
    let ghost inputs = geoms@;
    let mut holders: Vec<SafeCObj> = Vec::new();
    for geom in it: geoms.into_iter()
        invariant
            it.seq() == inputs,
            holders@.len() == it.index(),
            forall|j: int| 0 <= j < holders@.len() ==> holders@[j]@ == inputs[j]@.owner,
    {
        let mut geom = geom;
        holders.push(SafeCObj::steal_from(&mut geom));
    }
    assert(held(holders@) =~= handles(inputs));
    holders
}

/// Whether a holder in the row holds nothing.
fn some_absent(holders: &Vec<SafeCObj>) -> (absent: bool)
    ensures
        absent == !all_owned(held(holders@)),
{
    let n: usize = holders.len();
    let mut i: usize = 0;
    while i < n
        invariant
            n == holders@.len(),
            i <= n,
            forall|j: int| 0 <= j < i ==> held(holders@)[j] != 0,
        decreases n - i,
    {
        if holders[i].as_ptr() == 0 {
            assert(held(holders@)[i as int] == 0);
            return true;
        }
        i += 1;
    }
    false
}

/// A coordinate sequence on its way into the engine call that makes a point,
/// a line string or a linear ring of it and owns it from then on.
#[derive(Debug)]
pub struct SeqTransfer {
    seq: Resource,
    kind: GEOSGeomTypes,
}

impl SeqTransfer {
    #[verifier::type_invariant]
    spec fn complete(self) -> bool {
        self.seq@ is Some && self.kind.spec_has_coord_seq()
    }

    /// The handle of the sequence that was taken.
    pub closed spec fn seq(&self) -> usize {
        raw_of(self.seq@)
    }

    /// The kind of geometry to make.
    pub closed spec fn target(&self) -> GEOSGeomTypes {
        self.kind
    }

    /// The engine call to make: a point, a line string or a linear ring from
    /// the sequence, whose handle is not null.
    pub fn call(&self) -> (call: EngineCall)
        ensures
            self.seq() != 0,
            match call {
                EngineCall::CreatePoint { seq } => {
                    seq == self.seq() && self.target() == GEOSGeomTypes::GEOS_POINT
                },
                EngineCall::CreateLineString { seq } => {
                    seq == self.seq() && self.target() == GEOSGeomTypes::GEOS_LINESTRING
                },
                EngineCall::CreateLinearRing { seq } => {
                    seq == self.seq() && self.target() == GEOSGeomTypes::GEOS_LINEARRING
                },
                _ => false,
            },
    {
        proof {
            use_type_invariant(self);
            lemma_owned_is_not_null(self.seq);
        }
        let seq = self.seq.as_ptr();
        match self.kind {
            GEOSGeomTypes::GEOS_POINT => EngineCall::CreatePoint { seq },
            GEOSGeomTypes::GEOS_LINESTRING => EngineCall::CreateLineString { seq },
            _ => EngineCall::CreateLinearRing { seq },
        }
    }

    /// Closes the hand-over with the engine's answer, the handle `built`.
    ///
    /// A handle that is not null is the new geometry, which owns the
    /// sequence: nothing is to be released. The null handle means that the
    /// engine refused and took nothing: the sequence is then to be released.
    pub fn settle(self, built: usize) -> (r: Result<usize, Refusal>)
        ensures
            built != 0 ==> r == Ok::<usize, Refusal>(built),
            built == 0 ==> (r matches Err(refusal) && refusal.error is InvalidGeometry
                && refusal.release@ == seq![self.seq()]),
            self.seq() != 0,
    {
        proof {
            use_type_invariant(&self);
            lemma_owned_is_not_null(self.seq);
        }
        if built != 0 {
            Ok(built)
        } else {
            let mut release: Vec<usize> = Vec::new();
            release.push(self.seq.release());
            assert(release@ =~= seq![self.seq()]);
            Err(Refusal { error: Error::InvalidGeometry, release })
        }
    }
}

/// Starts the hand-over of the sequence `s` for a geometry of the kind
/// `kind`. An inert sequence is refused, and so is one that does not `fit`,
/// whose handle is then to be released.
fn hand_over(s: CoordSeq, kind: GEOSGeomTypes, fit: bool) -> (r: Result<SeqTransfer, Refusal>)
    requires
        kind.spec_has_coord_seq(),
    ensures
        r is Ok <==> s@.owner is Some && fit,
        r matches Ok(transfer) ==> transfer.seq() == raw_of(s@.owner) && transfer.target() == kind,
        r matches Err(refusal) ==> if s@.owner is None {
            refusal.error is NoConstructionFromNullPtr && refusal.release@ == Seq::<usize>::empty()
        } else {
            refusal.error is InvalidGeometry && refusal.release@ == seq![raw_of(s@.owner)]
        },
{
    let seq = s.into_resource();
    let mut release: Vec<usize> = Vec::new();
    if seq.is_inert() {
        Err(Refusal { error: Error::NoConstructionFromNullPtr, release })
    } else if !fit {
        release.push(seq.release());
        assert(release@ =~= seq![raw_of(s@.owner)]);
        Err(Refusal { error: Error::InvalidGeometry, release })
    } else {
        Ok(SeqTransfer { seq, kind })
    }
}

impl<T> GGeom<T> {
    /// The value for a geometry that the engine returned, with the area and
    /// the type id that the engine gave for it.
    ///
    /// The null handle is the engine's way to say that it failed. A type id
    /// that names no kind of geometry is refused as well; the handle, which
    /// nobody owns then, is to be released. Both give `InvalidGeometry`.
    pub fn new_from_c_obj(g: usize, area: T, type_id: i32) -> (r: Result<GGeom<T>, Refusal>)
        ensures
            r is Ok <==> g != 0 && GEOSGeomTypes::spec_from_type_id(type_id) is Some,
            r matches Ok(geom) ==> geom@ == (GeomView {
                owner: Some(g),
                area,
                kind: GEOSGeomTypes::spec_from_type_id(type_id)->0,
            }),
            r matches Err(refusal) ==> refusal.error is InvalidGeometry && refusal.release@
                == owned(seq![g]),
    {
        proof {
            lemma_owned_single(g);
        }
        let mut release: Vec<usize> = Vec::new();
        if g == 0 {
            return Err(Refusal { error: Error::InvalidGeometry, release });
        }
        match GEOSGeomTypes::from_type_id(type_id) {
            Some(kind) => Ok(GGeom { c_obj: Resource::adopt(g), area, kind }),
            None => {
                release.push(g);
                assert(release@ =~= seq![g]);
                Err(Refusal { error: Error::InvalidGeometry, release })
            },
        }
    }

    /// Whether the value owns no geometry.
    pub fn is_inert(&self) -> (b: bool)
        ensures
            b == (self@.owner is None),
    {
        self.c_obj.is_inert()
    }

    /// The handle for an engine call that only reads the geometry, or
    /// `NoConstructionFromNullPtr` for an inert value, for which the engine
    /// is not to be called.
    pub fn handle(&self) -> (r: Result<usize, Error>)
        ensures
            match r {
                Ok(h) => self@.owner == Some(h),
                Err(e) => self@.owner is None && e is NoConstructionFromNullPtr,
            },
    {
        self.c_obj.handle()
    }

    /// The kind of geometry.
    pub fn kind(&self) -> (kind: GEOSGeomTypes)
        ensures
            kind == self@.kind,
    {
        self.kind
    }

    /// The engine's type id of the geometry.
    pub fn type_id(&self) -> (id: i32)
        ensures
            id == self@.kind.spec_type_id(),
    {
        self.kind.type_id()
    }

    /// Ends the value's life: returns the handle that has to be handed back
    /// to the engine now, if one is owned, and leaves the value inert. Asked
    /// again, an inert value gives nothing: no handle is released twice.
    pub fn dispose(&mut self) -> (due: Option<usize>)
        ensures
            due == old(self)@.owner,
            final(self)@ == (GeomView { owner: None, ..old(self)@ }),
    {
        self.c_obj.dispose()
    }

    /// Whether the geometry is a point, a line string or a linear ring: the
    /// engine is asked for a coordinate sequence only where this holds.
    pub fn has_coord_seq(&self) -> (b: bool)
        ensures
            b == self@.kind.spec_has_coord_seq(),
    {
        self.kind.has_coord_seq()
    }

    /// Reads the engine's answer to the request for this geometry's
    /// coordinate sequence: the handle `seq` of a sequence of `size` points
    /// with `dims` ordinates.
    ///
    /// Only a point, a line string and a linear ring have one. For them the
    /// null handle is a failure of the engine.
    pub fn get_coord_seq(&self, seq: usize, size: u32, dims: u32) -> (r: Result<
        CoordSeq,
        &'static str,
    >)
        ensures
            match r {
                Ok(s) => {
                    &&& self@.kind.spec_has_coord_seq()
                    &&& seq != 0
                    &&& s@.owner == Some(seq)
                    &&& s@.size == size
                    &&& s@.dims == dims
                },
                Err(words) => if self@.kind.spec_has_coord_seq() {
                    seq == 0 && words@ == "Error retrieving Coordinates Sequence"@
                } else {
                    words@
                        == "Not implemented - Geometry must be a Point, LineString or LinearRing"@
                },
            },
    {
        if self.kind.has_coord_seq() {
            if seq == 0 {
                Err("Error retrieving Coordinates Sequence")
            } else {
                Ok(CoordSeq::new_from_c_obj(seq, size, dims))
            }
        } else {
            Err("Not implemented - Geometry must be a Point, LineString or LinearRing")
        }
    }

    /// Starts the making of a polygon from an exterior ring and interior
    /// rings: takes the handle out of every input.
    ///
    /// The inputs are used up whatever comes of it. Where every input owns a
    /// geometry, the result is the hand-over to put before the engine. Where
    /// one of them is inert, or where there are more holes than the engine can
    /// count, nothing is put before the engine, and the refusal lists the
    /// handles that the inputs owned: each is to be released, once.
    pub fn create_polygon(exterior: GGeom<T>, interiors: Vec<GGeom<T>>) -> (r: Result<
        Transfer,
        Refusal,
    >)
        ensures
            r is Ok <==> all_owned(polygon_inputs(exterior, interiors@)) && interiors@.len()
                <= u32::MAX,
            r matches Ok(transfer) ==> {
                &&& transfer.shell() == Some(raw_of(exterior@.owner))
                &&& transfer.parts() == handles(interiors@)
            },
            r matches Err(refusal) ==> {
                &&& refusal.release@ == owned(polygon_inputs(exterior, interiors@))
                &&& if all_owned(polygon_inputs(exterior, interiors@)) {
                    refusal.error matches Error::InvalidGeometryDetail(words) && words@
                        == "more interior rings than the engine can count"@
                } else {
                    refusal.error is NoConstructionFromNullPtr
                }
            },
    {
        let ghost inputs = polygon_inputs(exterior, interiors@);
        let mut exterior = exterior;
        let shell = SafeCObj::steal_from(&mut exterior);
        let holes = steal_all(interiors);
        assert(held_row(Some(shell), holes@) =~= inputs);
        let absent = shell.as_ptr() == 0 || some_absent(&holes);
        proof {
            lemma_owned_is_not_null(shell.c_obj);
            if all_owned(inputs) {
                assert(inputs[0] != 0);
                assert forall|i: int| 0 <= i < held(holes@).len() implies held(holes@)[i]
                    != 0 by {
                    assert(inputs[i + 1] == held(holes@)[i]);
                }
            } else if shell@ is Some {
                if all_owned(held(holes@)) {
                    assert forall|i: int| 0 <= i < inputs.len() implies inputs[i] != 0 by {
                        if i > 0 {
                            assert(inputs[i] == held(holes@)[i - 1]);
                        }
                    }
                }
            }
        }
        if absent {
            Err(
                Refusal {
                    error: Error::NoConstructionFromNullPtr,
                    release: give_back(Some(shell), holes),
                },
            )
        } else if holes.len() > u32::MAX as usize {
            Err(
                Refusal {
                    error: Error::InvalidGeometryDetail(
                        String::from_str("more interior rings than the engine can count"),
                    ),
                    release: give_back(Some(shell), holes),
                },
            )
        } else {
            Ok(Transfer { shell: Some(shell), parts: holes })
        }
    }

    /// Starts the making of a multi-polygon from polygons: takes the handle
    /// out of every part.
    ///
    /// The parts are used up whatever comes of it. Where every part owns a
    /// geometry, the result is the hand-over to put before the engine. Where
    /// one of them is inert, or where there are more parts than the engine can
    /// count, nothing is put before the engine, and the refusal lists the
    /// handles that the parts owned: each is to be released, once.
    pub fn create_mulipolygon(polygons: Vec<GGeom<T>>) -> (r: Result<Transfer, Refusal>)
        ensures
            r is Ok <==> all_owned(handles(polygons@)) && polygons@.len() <= u32::MAX,
            r matches Ok(transfer) ==> {
                &&& transfer.shell() is None
                &&& transfer.parts() == handles(polygons@)
            },
            r matches Err(refusal) ==> {
                &&& refusal.release@ == owned(handles(polygons@))
                &&& if all_owned(handles(polygons@)) {
                    refusal.error matches Error::InvalidGeometryDetail(words) && words@
                        == "more polygons than the engine can count"@
                } else {
                    refusal.error is NoConstructionFromNullPtr
                }
            },
    {
        let parts = steal_all(polygons);
        if some_absent(&parts) {
            Err(Refusal { error: Error::NoConstructionFromNullPtr, release: give_back(None, parts) })
        } else if parts.len() > u32::MAX as usize {
            Err(
                Refusal {
                    error: Error::InvalidGeometryDetail(
                        String::from_str("more polygons than the engine can count"),
                    ),
                    release: give_back(None, parts),
                },
            )
        } else {
            Ok(Transfer { shell: None, parts })
        }
    }

    /// Starts the making of a point from the sequence `s`, which is used up.
    /// An inert sequence is refused.
    pub fn create_point(s: CoordSeq) -> (r: Result<SeqTransfer, Refusal>)
        ensures
            r is Ok <==> s@.owner is Some,
            r matches Ok(transfer) ==> transfer.seq() == raw_of(s@.owner) && transfer.target()
                == GEOSGeomTypes::GEOS_POINT,
            r matches Err(refusal) ==> refusal.release@ == Seq::<usize>::empty()
                && refusal.error is NoConstructionFromNullPtr,
    {
        hand_over(s, GEOSGeomTypes::GEOS_POINT, true)
    }

    /// Starts the making of a line string from the sequence `s`, which is
    /// used up. An inert sequence is refused.
    pub fn create_line_string(s: CoordSeq) -> (r: Result<SeqTransfer, Refusal>)
        ensures
            r is Ok <==> s@.owner is Some,
            r matches Ok(transfer) ==> transfer.seq() == raw_of(s@.owner) && transfer.target()
                == GEOSGeomTypes::GEOS_LINESTRING,
            r matches Err(refusal) ==> refusal.release@ == Seq::<usize>::empty()
                && refusal.error is NoConstructionFromNullPtr,
    {
        hand_over(s, GEOSGeomTypes::GEOS_LINESTRING, true)
    }

    /// Starts the making of a linear ring from the sequence `s`, which is
    /// used up.
    ///
    /// A ring of exactly one point is refused with `InvalidGeometry` before
    /// the engine sees it, and its handle is to be released. An inert
    /// sequence is refused with `NoConstructionFromNullPtr`.
    pub fn create_linear_ring(s: CoordSeq) -> (r: Result<SeqTransfer, Refusal>)
        ensures
            r is Ok <==> s@.owner is Some && s@.size != 1,
            r matches Ok(transfer) ==> transfer.seq() == raw_of(s@.owner) && transfer.target()
                == GEOSGeomTypes::GEOS_LINEARRING,
            r matches Err(refusal) ==> if s@.owner is None {
                refusal.error is NoConstructionFromNullPtr && refusal.release@ == Seq::<
                    usize,
                >::empty()
            } else {
                refusal.error is InvalidGeometry && refusal.release@ == seq![raw_of(s@.owner)]
            },
    {
        let fit = s.size() != 1;
        hand_over(s, GEOSGeomTypes::GEOS_LINEARRING, fit)
    }
}

impl<T: Copy> GGeom<T> {
    /// The area that the engine measured when the value was made.
    pub fn area(&self) -> (area: T)
        ensures
            area == self@.area,
    {
        self.area
    }

    /// The value for a copy that the engine made of this geometry under the
    /// handle `copy`: a geometry of its own, with the same area and kind. It
    /// never answers for the handle of this value, so the end of the one
    /// leaves the other alive.
    ///
    /// The null handle says that the engine made no copy, and a handle that
    /// this value owns is no copy: both give `InvalidGeometry`. Of an inert
    /// value there is nothing to copy; a handle that came all the same is to
    /// be released.
    pub fn duplicate(&self, copy: usize) -> (r: Result<GGeom<T>, Refusal>)
        ensures
            r is Ok <==> self@.owner is Some && copy != 0 && self@.owner != Some(copy),
            r matches Ok(geom) ==> geom@ == (GeomView { owner: Some(copy), ..self@ }),
            r matches Err(refusal) ==> if self@.owner is None {
                refusal.error is NoConstructionFromNullPtr && refusal.release@ == owned(
                    seq![copy],
                )
            } else {
                refusal.error is InvalidGeometry && refusal.release@ == Seq::<usize>::empty()
            },
    {
        proof {
            lemma_owned_single(copy);
        }
        let mut release: Vec<usize> = Vec::new();
        if self.c_obj.is_inert() {
            if copy != 0 {
                release.push(copy);
                assert(release@ =~= seq![copy]);
            }
            Err(Refusal { error: Error::NoConstructionFromNullPtr, release })
        } else if copy == 0 || copy == self.c_obj.as_ptr() {
            Err(Refusal { error: Error::InvalidGeometry, release })
        } else {
            Ok(GGeom { c_obj: Resource::adopt(copy), area: self.area, kind: self.kind })
        }
    }

    /// Moves the geometry out into a new value and leaves this one inert:
    /// whatever happens to this value afterwards, nothing is released for it.
    pub fn take(&mut self) -> (moved: GGeom<T>)
        ensures
            moved@ == old(self)@,
            final(self)@ == (GeomView { owner: None, ..old(self)@ }),
    {
        GGeom { c_obj: self.c_obj.take(), area: self.area, kind: self.kind }
    }
}

} // verus!
