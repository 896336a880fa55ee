//! The scene: bodies and inert environment and interface data, and the compiler
//! that turns the bodies into one shared piece of geometry.
use vstd::prelude::*;

use crate::geometry::{
    indices_of, is_first_outside, point_in_ndc, points_of, refused, shifted, valid_triangles,
    Geometry, GeometryError, Primitive, Vertex,
};
use crate::renderer::{Renderer, RendererState};

verus! {

/// Standard gravity, 9.81, in fixed point.
pub const EARTH_GRAVITY: i32 = 98100;

/// The most bodies a scene holds: four vertices each must stay addressable by
/// 32-bit indices.
pub const MAX_BODIES: usize = 0x4000_0000;

/// Surroundings of the scene; kept as data, nothing reads it yet.
#[derive(Clone, Copy, Debug, PartialEq, Eq, Structural)]
pub struct Environment {
    pub friction: i32,
}

/// A square object of the scene. Sizes and coordinates are fixed point, in units
/// of `1 / UNIT`; the physical fields are kept as data, nothing reads them yet.
#[derive(Clone, Copy, Debug)]
pub struct Body {
    pub mass: i32,
    pub acceleration: i32,
    pub velocity: (i32, i32, i32),
    pub size: i32,
    pub pos: Vertex,
}

/// A text element of the interface; kept as data, nothing draws it yet.
#[derive(Debug)]
pub struct UI {
    pub text: String,
    pub position: (i32, i32),
    pub border: bool,
    pub padding: i32,
}

/// The triangle list of a square over its corners in the order of `Body::corners`.
pub open spec fn square_triangles() -> Seq<int> {
    seq![0, 1, 2, 1, 2, 3]
}

/// The triangle list of a square whose first corner is vertex `n`.
pub open spec fn square_at(n: int) -> Seq<int> {
    seq![n, n + 1, n + 2, n + 1, n + 2, n + 3]
}

impl Body {
    /// The four corners of the square: `p`, `p + (0, s)`, `p + (s, 0)`, `p + (s, s)`.
    pub open spec fn corners(self) -> Seq<(int, int)> {
        let x = self.pos.x as int;
        let y = self.pos.y as int;
        let s = self.size as int;
        seq![(x, y), (x, y + s), (x + s, y), (x + s, y + s)]
    }
}

impl Primitive for Body {
    open spec fn points(self) -> Seq<(int, int)> {
        self.corners()
    }

    open spec fn triangles(self) -> Seq<int> {
        square_triangles()
    }

    proof fn lemma_triangles_valid(self) {
    }

    fn get_primitives(self, i: u32) -> (r: Result<(Vec<Vertex>, Vec<u32>), GeometryError>) {
        let offsets = [
            Vertex::new(0, 0),
            Vertex::new(0, self.size),
            Vertex::new(self.size, 0),
            Vertex::new(self.size, self.size),
        ];
        let mut v: Vec<Vertex> = Vec::new();
        let mut k: usize = 0;
        while k < 4
            invariant
                k <= 4,
                i + 4 <= u32::MAX + 1,
                offsets@.len() == 4,
                offsets@[0].point() == (0int, 0int),
                offsets@[1].point() == (0int, self.size as int),
                offsets@[2].point() == (self.size as int, 0int),
                offsets@[3].point() == (self.size as int, self.size as int),
                v@.len() == k,
                points_of(v@) == self.corners().take(k as int),
                forall|j: int| 0 <= j < k ==> point_in_ndc(#[trigger] self.corners()[j]),
            decreases 4 - k,
        {
            let c = self.pos.checked_add(offsets[k]);
            match c {
                Some(c) => {
                    if !c.in_bounds() {
                        return Err(GeometryError::OutOfBounds { vertex: i as usize + k });
                    }
                    v.push(c);
                    assert(points_of(v@) =~= self.corners().take(k + 1));
                },
                None => {
                    return Err(GeometryError::OutOfBounds { vertex: i as usize + k });
                },
            }
            k = k + 1;
        }
        assert(self.corners().take(4) =~= self.corners());
        let ix = vec![i, i + 1, i + 2, i + 1, i + 2, i + 3];
        assert(indices_of(ix@) =~= shifted(square_triangles(), i as int));
        Ok((v, ix))
    }
}

/// The vertices of a sequence of bodies: each body's corners, in scene order.
pub open spec fn scene_points(bodies: Seq<Body>) -> Seq<(int, int)>
    decreases bodies.len(),
{
    if bodies.len() == 0 {
        seq![]
    } else {
        scene_points(bodies.drop_last()) + bodies.last().corners()
    }
}

/// The triangle list of a sequence of bodies: each body's two triangles, numbered
/// from the count of vertices before it.
pub open spec fn scene_indices(bodies: Seq<Body>) -> Seq<int>
    decreases bodies.len(),
{
    if bodies.len() == 0 {
        seq![]
    } else {
        scene_indices(bodies.drop_last()) + shifted(square_triangles(), 4 * (bodies.len() - 1))
    }
}

proof fn lemma_scene_points_len(bodies: Seq<Body>)
    ensures
        scene_points(bodies).len() == 4 * bodies.len(),
    decreases bodies.len(),
{
    if bodies.len() > 0 {
        lemma_scene_points_len(bodies.drop_last());
    }
}

proof fn lemma_scene_points_concat(a: Seq<Body>, b: Seq<Body>)
    ensures
        scene_points(a + b) == scene_points(a) + scene_points(b),
    decreases b.len(),
{
    if b.len() == 0 {
        assert(a + b =~= a);
        assert(scene_points(a) + scene_points(b) =~= scene_points(a));
    } else {
        assert((a + b).drop_last() =~= a + b.drop_last());
        lemma_scene_points_concat(a, b.drop_last());
        assert(scene_points(a + b) =~= scene_points(a) + scene_points(b));
    }
}

/// Compiling `n` bodies gives `4 n` vertices and `6 n` indices, whole triangles
/// whose every index names one of the `4 n` vertices.
pub proof fn lemma_compiled_sizes(bodies: Seq<Body>)
    ensures
        scene_points(bodies).len() == 4 * bodies.len(),
        scene_indices(bodies).len() == 6 * bodies.len(),
        valid_triangles(scene_indices(bodies), (4 * bodies.len()) as int),
    decreases bodies.len(),
{
    lemma_scene_points_len(bodies);
    if bodies.len() > 0 {
        let rest = bodies.drop_last();
        lemma_compiled_sizes(rest);
        let ix = scene_indices(bodies);
        assert forall|k: int| 0 <= k < ix.len() implies 0 <= #[trigger] ix[k] < 4
            * bodies.len() by {
            if k < scene_indices(rest).len() {
                assert(ix[k] == scene_indices(rest)[k]);
            }
        }
    }
}

/// A body appended after others continues the numbering: its corners follow the
/// earlier vertices, and its triangles use exactly the next four vertex numbers.
pub proof fn lemma_append_body(bodies: Seq<Body>, b: Body)
    ensures
        scene_points(bodies.push(b)) == scene_points(bodies) + b.corners(),
        scene_indices(bodies.push(b)) == scene_indices(bodies) + square_at(
            (4 * bodies.len()) as int,
        ),
{
    let n = (4 * bodies.len()) as int;
    assert(bodies.push(b).drop_last() =~= bodies);
    assert(shifted(square_triangles(), n) =~= seq![n, n + 1, n + 2, n + 1, n + 2, n + 3]);
}

/// Compiles bodies into one piece of geometry, in scene order: four vertices and
/// two triangles per body. Geometry with a vertex outside [-1, 1] is refused,
/// naming the first such vertex.
pub fn compile_bodies(bodies: &Vec<Body>) -> (r: Result<Geometry, GeometryError>)
    requires
        bodies@.len() <= MAX_BODIES,
    ensures
        match r {
            Ok(g) => {
                &&& g.points() == scene_points(bodies@)
                &&& g.index_list() == scene_indices(bodies@)
                &&& g.wf()
            },
            Err(e) => {
                &&& e matches GeometryError::OutOfBounds { vertex }
                &&& is_first_outside(scene_points(bodies@), vertex as int)
            },
        },
{
    let mut g = Geometry::new();
    let mut k: usize = 0;
    assert(g.points() =~= scene_points(bodies@.take(0)));
    assert(g.index_list() =~= scene_indices(bodies@.take(0)));
    while k < bodies.len()
        invariant
            k <= bodies@.len() <= MAX_BODIES,
            g.wf(),
            g.vertices@.len() == 4 * k,
            g.points() == scene_points(bodies@.take(k as int)),
            g.index_list() == scene_indices(bodies@.take(k as int)),
        decreases bodies@.len() - k,
    {
        let b = bodies[k];
        let ghost before = bodies@.take(k as int);
        let ghost upto = bodies@.take(k + 1);
        assert(upto.drop_last() =~= before);
        match g.add_primitive(b) {
            Ok(()) => {
                assert(g.vertices@.len() == g.points().len());
            },
            Err(e) => {
                proof {
                    lemma_scene_points_len(before);
                    let rest = bodies@.skip(k + 1);
                    assert(bodies@ =~= upto + rest);
                    lemma_scene_points_concat(upto, rest);
                    let vertex = e->OutOfBounds_vertex as int;
                    assert(scene_points(bodies@)[vertex] == b.corners()[vertex - 4 * k]);
                    assert forall|j: int| 0 <= j < vertex implies point_in_ndc(
                        #[trigger] scene_points(bodies@)[j],
                    ) by {
                        if j >= 4 * k {
                            assert(scene_points(bodies@)[j] == b.corners()[j - 4 * k]);
                        } else {
                            assert(scene_points(bodies@)[j] == g.points()[j]);
                        }
                    }
                }
                return Err(e);
            },
        }
        k = k + 1;
    }
    assert(bodies@.take(bodies@.len() as int) =~= bodies@);
    Ok(g)
}

/// The contents of a scene, as contracts speak of them.
pub ghost struct SceneState {
    pub title: Seq<char>,
    pub environment: Seq<Environment>,
    pub bodies: Seq<Body>,
    pub interface: Seq<UI>,
    pub gravity: i32,
}

/// Why a body was not added to a scene.
#[derive(Clone, Copy, Debug, PartialEq, Eq, Structural)]
pub enum SceneError {
    /// The body's mass is negative.
    NegativeMass,
    /// The scene already holds `MAX_BODIES` bodies.
    Full,
}

/// A scene: a title, environments, bodies in insertion order, interface elements
/// and a gravity, all in fixed point.
#[derive(Debug)]
pub struct Scene {
    title: String,
    environment: Vec<Environment>,
    bodies: Vec<Body>,
    interface: Vec<UI>,
    gravity: i32,
}

impl View for Scene {
    type V = SceneState;

    closed spec fn view(&self) -> SceneState {
        SceneState {
            title: self.title@,
            environment: self.environment@,
            bodies: self.bodies@,
            interface: self.interface@,
            gravity: self.gravity,
        }
    }
}

impl Scene {
    /// At most `MAX_BODIES` bodies, none of negative mass.
    pub open spec fn wf(&self) -> bool {
        &&& self@.bodies.len() <= MAX_BODIES
        &&& forall|k: int| 0 <= k < self@.bodies.len() ==> (#[trigger] self@.bodies[k]).mass >= 0
    }

    /// An empty scene with this title and gravity.
    pub fn new(title: &str, gravity: i32) -> (s: Scene)
        ensures
            s.wf(),
            s@ == (SceneState {
                title: title@,
                environment: seq![],
                bodies: seq![],
                interface: seq![],
                gravity,
            }),
    {
        Scene {
            title: title.to_owned(),
            environment: Vec::new(),
            bodies: Vec::new(),
            interface: Vec::new(),
            gravity,
        }
    }

    /// Adds a body after the others; one of negative mass, or one more than
    /// `MAX_BODIES`, is refused and the scene is unchanged.
    pub fn add_obj(&mut self, obj: Body) -> (r: Result<(), SceneError>)
        requires
            old(self).wf(),
        ensures
            final(self).wf(),
            match r {
                Ok(()) => final(self)@ == (SceneState { bodies: old(self)@.bodies.push(obj), ..old(self)@ }),
                Err(SceneError::NegativeMass) => obj.mass < 0 && final(self)@ == old(self)@,
                Err(SceneError::Full) => {
                    &&& obj.mass >= 0
                    &&& old(self)@.bodies.len() == MAX_BODIES
                    &&& final(self)@ == old(self)@
                },
            },
    {
        if obj.mass < 0 {
            return Err(SceneError::NegativeMass);
        }
        if self.bodies.len() >= MAX_BODIES {
            return Err(SceneError::Full);
        }
        self.bodies.push(obj);
        Ok(())
    }

    /// The scene's title.
    pub fn title(&self) -> (t: &str)
        ensures
            t@ == self@.title,
    {
        self.title.as_str()
    }

    /// The bodies, in insertion order.
    pub fn bodies(&self) -> (b: &Vec<Body>)
        ensures
            b@ == self@.bodies,
    {
        &self.bodies
    }

    /// The scene's gravity, fixed point.
    pub fn gravity(&self) -> (g: i32)
        ensures
            g == self@.gravity,
    {
        self.gravity
    }

    /// Compiles the bodies and hands back a renderer for a window of the scene's
    /// title, holding them as one unit labelled `objects` drawn by the two shader
    /// stages given; geometry with a vertex outside [-1, 1] is refused.
    pub fn execute(self, vertex_src: &str, fragment_src: &str) -> (r: Result<
        Renderer,
        GeometryError,
    >)
        requires
            self.wf(),
        ensures
            match r {
                Ok(renderer) => {
                    &&& renderer.wf()
                    &&& renderer@.units.len() == 1
                    &&& renderer@ == (RendererState {
                        units: renderer@.units,
                        ..RendererState::initial(self@.title)
                    })
                    &&& renderer@.units[0].geometry.wf()
                    &&& renderer@.units[0].geometry.points() == scene_points(self@.bodies)
                    &&& renderer@.units[0].geometry.index_list() == scene_indices(self@.bodies)
                    &&& renderer@.units[0].vertex_src@ == vertex_src@
                    &&& renderer@.units[0].fragment_src@ == fragment_src@
                    &&& renderer@.units[0].label@ == "objects"@
                },
                Err(e) => {
                    &&& e matches GeometryError::OutOfBounds { vertex }
                    &&& is_first_outside(scene_points(self@.bodies), vertex as int)
                },
            },
    {
        let geometry = match compile_bodies(&self.bodies) {
            Ok(g) => g,
            Err(e) => {
                return Err(e);
            },
        };
        let ghost g = geometry;
        let renderer = Renderer::new(self.title.as_str());
        let r = renderer.with_objects(
            geometry.vertices,
            geometry.indices,
            vertex_src,
            fragment_src,
            Some("objects"),
        );
        match r {
            Ok(renderer) => {
                assert(renderer@.units =~= seq![renderer@.units.last()]);
                Ok(renderer)
            },
            Err(e) => {
                assert(!refused(g.vertices@, g.indices@, e));
                Err(e)
            },
        }
    }
}

} // verus!
