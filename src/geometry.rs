//! Fixed-point vertices, drawable shapes and triangle-list geometry.
use vstd::prelude::*;

verus! {

/// The fixed-point value of 1.0: a coordinate `c` stands for `c / UNIT`.
pub const UNIT: i32 = 10000;

/// Whether a fixed-point coordinate lies in normalized device space, [-1, 1].
pub open spec fn in_ndc(c: int) -> bool {
    -UNIT <= c <= UNIT
}

/// Whether both coordinates of a point lie in normalized device space.
pub open spec fn point_in_ndc(p: (int, int)) -> bool {
    in_ndc(p.0) && in_ndc(p.1)
}

/// Whether every point of a sequence lies in normalized device space.
pub open spec fn all_in_ndc(ps: Seq<(int, int)>) -> bool {
    forall|k: int| 0 <= k < ps.len() ==> point_in_ndc(#[trigger] ps[k])
}

/// `k` is the position of the first point of `ps` outside normalized device space.
pub open spec fn is_first_outside(ps: Seq<(int, int)>, k: int) -> bool {
    &&& 0 <= k < ps.len()
    &&& !point_in_ndc(ps[k])
    &&& forall|j: int| 0 <= j < k ==> point_in_ndc(#[trigger] ps[j])
}

/// Vertices as integer points.
pub open spec fn points_of(vs: Seq<Vertex>) -> Seq<(int, int)> {
    vs.map_values(|v: Vertex| v.point())
}

/// Buffer indices as integers.
pub open spec fn indices_of(ix: Seq<u32>) -> Seq<int> {
    ix.map_values(|i: u32| i as int)
}

/// A triangle list with every index moved up by `offset`.
pub open spec fn shifted(t: Seq<int>, offset: int) -> Seq<int> {
    t.map_values(|k: int| k + offset)
}

/// A triangle list over `n` vertices: whole triangles, every index in `0..n`.
pub open spec fn valid_triangles(t: Seq<int>, n: int) -> bool {
    &&& t.len() % 3 == 0
    &&& forall|k: int| 0 <= k < t.len() ==> 0 <= #[trigger] t[k] < n
}

/// A point in fixed-point normalized device coordinates.
#[derive(Clone, Copy, Debug, PartialEq, Eq, Structural)]
pub struct Vertex {
    pub x: i32,
    pub y: i32,
}

impl Vertex {
    /// The vertex as a pair of mathematical integers.
    pub open spec fn point(self) -> (int, int) {
        (self.x as int, self.y as int)
    }

    pub fn new(x: i32, y: i32) -> (r: Vertex)
        ensures
            r.x == x,
            r.y == y,
    {
        Vertex { x, y }
    }

    /// Component-wise sum; `None` where a component leaves the range of `i32`.
    pub fn checked_add(self, rhs: Vertex) -> (r: Option<Vertex>)
        ensures
            match r {
                Some(v) => v.point() == (self.x + rhs.x, self.y + rhs.y),
                None => !(i32::MIN <= self.x + rhs.x <= i32::MAX && i32::MIN <= self.y + rhs.y
                    <= i32::MAX),
            },
    {
        match (self.x.checked_add(rhs.x), self.y.checked_add(rhs.y)) {
            (Some(x), Some(y)) => Some(Vertex { x, y }),
            _ => None,
        }
    }

    /// Whether the vertex lies in normalized device space.
    pub fn in_bounds(&self) -> (b: bool)
        ensures
            b == point_in_ndc(self.point()),
    {
        -UNIT <= self.x && self.x <= UNIT && -UNIT <= self.y && self.y <= UNIT
    }
}

/// Why geometry was refused before upload.
#[derive(Clone, Copy, Debug, PartialEq, Eq, Structural)]
pub enum GeometryError {
    /// The vertex at this position of the vertex list lies outside [-1, 1].
    OutOfBounds { vertex: usize },
    /// The index list has this length, which is not a whole number of triangles.
    PartialTriangle { len: usize },
    /// The index at this position of the index list names no vertex.
    IndexOutOfRange { position: usize },
}

/// A shape that can produce its own vertices and triangle list.
pub trait Primitive: Sized {
    /// The shape's vertices, in order, as exact integer points.
    spec fn points(self) -> Seq<(int, int)>;

    /// The shape's triangle list, numbered from its own first vertex.
    spec fn triangles(self) -> Seq<int>;

    /// The triangle list only names the shape's own vertices.
    proof fn lemma_triangles_valid(self)
        ensures
            valid_triangles(self.triangles(), self.points().len() as int),
    ;

    /// Produces the shape's vertices and its triangle list numbered from `i`, or
    /// names the first vertex (counting from `i`) outside normalized device space.
    fn get_primitives(self, i: u32) -> (r: Result<(Vec<Vertex>, Vec<u32>), GeometryError>)
        requires
            i + self.points().len() <= u32::MAX + 1,
        ensures
            match r {
                Ok((v, ix)) => {
                    &&& all_in_ndc(self.points())
                    &&& points_of(v@) == self.points()
                    &&& indices_of(ix@) == shifted(self.triangles(), i as int)
                },
                Err(e) => match e {
                    GeometryError::OutOfBounds { vertex } => is_first_outside(
                        self.points(),
                        vertex - i,
                    ),
                    _ => false,
                },
            },
    ;
}

/// `k` is the position of the first index of `ix` that names no vertex of `n`.
pub open spec fn is_first_dangling(ix: Seq<int>, n: int, k: int) -> bool {
    &&& 0 <= k < ix.len()
    &&& !(0 <= ix[k] < n)
    &&& forall|j: int| 0 <= j < k ==> 0 <= #[trigger] ix[j] < n
}

/// Whether `e` is the error for a vertex list and an index list: the first vertex
/// outside [-1, 1]; else an index list that is not whole triangles; else the first
/// index that names no vertex.
pub open spec fn refused(vs: Seq<Vertex>, ix: Seq<u32>, e: GeometryError) -> bool {
    match e {
        GeometryError::OutOfBounds { vertex } => is_first_outside(points_of(vs), vertex as int),
        GeometryError::PartialTriangle { len } => {
            &&& all_in_ndc(points_of(vs))
            &&& len == ix.len()
            &&& len % 3 != 0
        },
        GeometryError::IndexOutOfRange { position } => {
            &&& all_in_ndc(points_of(vs))
            &&& ix.len() % 3 == 0
            &&& is_first_dangling(indices_of(ix), vs.len() as int, position as int)
        },
    }
}

/// A single triangle is a shape of its own three corners.
impl Primitive for [Vertex; 3] {
    open spec fn points(self) -> Seq<(int, int)> {
        points_of(self@)
    }

    open spec fn triangles(self) -> Seq<int> {
        seq![0, 1, 2]
    }

    proof fn lemma_triangles_valid(self) {
    }

    fn get_primitives(self, i: u32) -> (r: Result<(Vec<Vertex>, Vec<u32>), GeometryError>) {
        let mut k: usize = 0;
        while k < 3
            invariant
                k <= 3,
                i + 3 <= u32::MAX + 1,
                forall|j: int| 0 <= j < k ==> point_in_ndc(#[trigger] points_of(self@)[j]),
            decreases 3 - k,
        {
            if !self[k].in_bounds() {
                return Err(GeometryError::OutOfBounds { vertex: i as usize + k });
            }
            k = k + 1;
        }
        let v = vec![self[0], self[1], self[2]];
        let ix = vec![i, i + 1, i + 2];
        assert(points_of(v@) =~= points_of(self@));
        assert(indices_of(ix@) =~= shifted(seq![0, 1, 2], i as int));
        Ok((v, ix))
    }
}

/// A vertex list and a triangle list over it, in the layout that is uploaded.
#[derive(Debug)]
pub struct Geometry {
    pub vertices: Vec<Vertex>,
    pub indices: Vec<u32>,
}

impl Geometry {
    /// The vertices as integer points.
    pub open spec fn points(&self) -> Seq<(int, int)> {
        points_of(self.vertices@)
    }

    /// The indices as integers.
    pub open spec fn index_list(&self) -> Seq<int> {
        indices_of(self.indices@)
    }

    /// Every vertex in normalized device space; whole triangles over the vertices.
    pub open spec fn wf(&self) -> bool {
        &&& all_in_ndc(self.points())
        &&& valid_triangles(self.index_list(), self.vertices@.len() as int)
    }

    /// Empty geometry: nothing to draw.
    pub fn new() -> (g: Geometry)
        ensures
            g.vertices@ == Seq::<Vertex>::empty(),
            g.indices@ == Seq::<u32>::empty(),
            g.wf(),
    {
        Geometry { vertices: Vec::new(), indices: Vec::new() }
    }

    /// Appends a shape: its vertices after the present ones, its triangles numbered
    /// from the present vertex count. A shape with a vertex outside [-1, 1] is
    /// refused and nothing changes.
    pub fn add_primitive<P: Primitive>(&mut self, obj: P) -> (r: Result<(), GeometryError>)
        requires
            old(self).wf(),
            old(self).vertices@.len() <= u32::MAX,
            old(self).vertices@.len() + obj.points().len() <= u32::MAX + 1,
        ensures
            match r {
                Ok(()) => {
                    &&& all_in_ndc(obj.points())
                    &&& final(self).points() == old(self).points() + obj.points()
                    &&& final(self).index_list() == old(self).index_list() + shifted(
                        obj.triangles(),
                        old(self).vertices@.len() as int,
                    )
                    &&& final(self).wf()
                },
                Err(e) => {
                    &&& *final(self) == *old(self)
                    &&& e matches GeometryError::OutOfBounds { vertex }
                    &&& is_first_outside(obj.points(), vertex - old(self).vertices@.len())
                },
            },
    {
        proof {
            obj.lemma_triangles_valid();
        }
        let ghost pts = obj.points();
        let ghost tri = obj.triangles();
        let base = self.vertices.len() as u32;
        match obj.get_primitives(base) {
            Ok((mut v, mut ix)) => {
                let ghost old_v = self.vertices@;
                let ghost old_ix = self.indices@;
                self.vertices.append(&mut v);
                self.indices.append(&mut ix);
                assert(points_of(self.vertices@) =~= points_of(old_v) + pts);
                assert(indices_of(self.indices@) =~= indices_of(old_ix) + shifted(
                    tri,
                    base as int,
                ));
                assert forall|k: int| 0 <= k < self.index_list().len() implies 0
                    <= #[trigger] self.index_list()[k] < self.vertices@.len() by {
                    if k >= old_ix.len() {
                        assert(0 <= tri[k - old_ix.len()] < pts.len());
                    }
                }
                Ok(())
            },
            Err(e) => Err(e),
        }
    }

    /// Appends one triangle of three vertices, or refuses it where a vertex lies
    /// outside [-1, 1].
    pub fn add_triangle(&mut self, v: [Vertex; 3]) -> (r: Result<(), GeometryError>)
        requires
            old(self).wf(),
            old(self).vertices@.len() + 3 <= u32::MAX + 1,
        ensures
            match r {
                Ok(()) => {
                    &&& all_in_ndc(points_of(v@))
                    &&& final(self).vertices@ == old(self).vertices@ + v@
                    &&& final(self).index_list() == old(self).index_list() + seq![
                        old(self).vertices@.len() as int,
                        old(self).vertices@.len() + 1int,
                        old(self).vertices@.len() + 2int,
                    ]
                    &&& final(self).wf()
                },
                Err(e) => {
                    &&& *final(self) == *old(self)
                    &&& e matches GeometryError::OutOfBounds { vertex }
                    &&& is_first_outside(points_of(v@), vertex - old(self).vertices@.len())
                },
            },
    {
        let ghost n = self.vertices@.len() as int;
        let ghost old_v = self.vertices@;
        let r = self.add_primitive(v);
        proof {
            if r is Ok {
                assert(shifted(seq![0, 1, 2], n) =~= seq![n, n + 1, n + 2]);
                assert(points_of(self.vertices@) == points_of(old_v + v@));
                assert forall|k: int| 0 <= k < self.vertices@.len() implies #[trigger] self.vertices@[k]
                    == (old_v + v@)[k] by {
                    assert(points_of(self.vertices@)[k] == points_of(old_v + v@)[k]);
                }
                assert(self.vertices@ =~= old_v + v@);
            }
        }
        r
    }

    /// Accepts a vertex list and an index list as geometry, checking in turn that
    /// every vertex lies in [-1, 1], that the indices make whole triangles, and
    /// that every index names a vertex; the first failed check is the error.
    pub fn from_parts(vertices: Vec<Vertex>, indices: Vec<u32>) -> (r: Result<Geometry, GeometryError>)
        ensures
            match r {
                Ok(g) => {
                    &&& g.vertices@ == vertices@
                    &&& g.indices@ == indices@
                    &&& g.wf()
                },
                Err(e) => refused(vertices@, indices@, e),
            },
    {
        let mut k: usize = 0;
        while k < vertices.len()
            invariant
                k <= vertices@.len(),
                forall|j: int| 0 <= j < k ==> point_in_ndc(#[trigger] points_of(vertices@)[j]),
            decreases vertices@.len() - k,
        {
            if !vertices[k].in_bounds() {
                return Err(GeometryError::OutOfBounds { vertex: k });
            }
            k = k + 1;
        }
        if indices.len() % 3 != 0 {
            return Err(GeometryError::PartialTriangle { len: indices.len() });
        }
        let mut p: usize = 0;
        while p < indices.len()
            invariant
                p <= indices@.len(),
                indices@.len() % 3 == 0,
                all_in_ndc(points_of(vertices@)),
                forall|j: int|
                    0 <= j < p ==> 0 <= #[trigger] indices_of(indices@)[j] < vertices@.len(),
            decreases indices@.len() - p,
        {
            if indices[p] as usize >= vertices.len() {
                return Err(GeometryError::IndexOutOfRange { position: p });
            }
            p = p + 1;
        }
        Ok(Geometry { vertices, indices })
    }
}

} // verus!
