//! Queues of everything to be drawn in one frame: the vertices and indices of the
//! shapes, the points in the index list at which the texture, shader or uniforms
//! change, the lines and the text.
//!
//! The vertex and text types are parameters: the queue decides where shapes go in
//! the index list and when a switch is needed, whatever a vertex holds.
use vstd::prelude::*;

use crate::resource_cache::{CachedResource, ResourceCache};

verus! {

/// The one past largest value of a `u16` index.
pub const INDEX_RANGE: usize = 0x10000;

/// The group of bindings a switch point activates.
#[derive(Clone, Copy, Debug, PartialEq, Eq, Structural)]
pub enum BindGroups {
    WhitePixel,
    Texture { bind_group: u32 },
    ShaderOptions { bind_group: u32, group_num: u32 },
}

/// A point in the index list from which on other bindings or another shader are used.
#[derive(Clone, Copy, Debug, PartialEq, Eq, Structural)]
pub enum SwitchPoint {
    BindGroup { bind_group: BindGroups, point: usize },
    Shader { id: u32, point: usize },
}

impl SwitchPoint {
    /// Whether the switch selects the white pixel texture.
    pub open spec fn spec_is_white_pixel(self) -> bool {
        self matches SwitchPoint::BindGroup { bind_group: BindGroups::WhitePixel, .. }
    }

    /// Whether the switch changes bindings rather than the shader.
    pub open spec fn spec_is_texture(self) -> bool {
        self is BindGroup
    }

    /// The place in the index list at which the switch applies.
    pub open spec fn spec_point(self) -> usize {
        match self {
            SwitchPoint::BindGroup { point, .. } => point,
            SwitchPoint::Shader { point, .. } => point,
        }
    }

    /// Whether the switch selects the white pixel texture.
    pub fn is_white_pixel(&self) -> (r: bool)
        ensures
            r == self.spec_is_white_pixel(),
    {
        match self {
            Self::BindGroup { bind_group: BindGroups::WhitePixel, .. } => true,
            _ => false,
        }
    }

    /// Whether the switch changes bindings rather than the shader.
    pub fn is_texture(&self) -> (r: bool)
        ensures
            r == self.spec_is_texture(),
    {
        match self {
            Self::BindGroup { .. } => true,
            _ => false,
        }
    }

    /// The place in the index list at which the switch applies.
    pub fn get_point(&self) -> (p: usize)
        ensures
            p == self.spec_point(),
    {
        match self {
            Self::BindGroup { point, .. } => *point,
            Self::Shader { point, .. } => *point,
        }
    }
}

/// The last switch that changes bindings, if there is one.
pub open spec fn last_texture_switch(switches: Seq<SwitchPoint>) -> Option<SwitchPoint>
    decreases switches.len(),
{
    if switches.len() == 0 {
        None
    } else if switches.last().spec_is_texture() {
        Some(switches.last())
    } else {
        last_texture_switch(switches.drop_last())
    }
}

/// The switches after queueing an untextured shape whose indices start at `point`:
/// a white pixel switch is added unless the bindings in use already are the white pixel.
pub open spec fn with_white_pixel(switches: Seq<SwitchPoint>, point: usize) -> Seq<SwitchPoint> {
    match last_texture_switch(switches) {
        Some(p) if p.spec_is_white_pixel() => switches,
        _ => switches.push(SwitchPoint::BindGroup { bind_group: BindGroups::WhitePixel, point }),
    }
}

/// The switches after queueing a shape with the texture `texture` whose indices
/// start at `point`: a switch to it is added unless it is already in use.
pub open spec fn with_texture(switches: Seq<SwitchPoint>, texture: u32, point: usize) -> Seq<SwitchPoint> {
    match last_texture_switch(switches) {
        Some(SwitchPoint::BindGroup { bind_group: BindGroups::Texture { bind_group }, .. }) if bind_group
            == texture => switches,
        _ => switches.push(
            SwitchPoint::BindGroup { bind_group: BindGroups::Texture { bind_group: texture }, point },
        ),
    }
}

/// The index the first vertex of the next shape gets: the number of queued
/// vertices, wrapped to the `u16` range.
pub open spec fn next_base(vertex_count: nat) -> int {
    vertex_count as int % INDEX_RANGE as int
}

/// The indices of a rectangle whose first vertex has index `b`: two triangles.
pub open spec fn rectangle_indices(b: int) -> Seq<u16> {
    seq![b as u16, (b + 1) as u16, (b + 2) as u16, (b + 3) as u16, b as u16, (b + 2) as u16]
}

/// The indices of a triangle whose first vertex has index `b`.
pub open spec fn triangle_indices(b: int) -> Seq<u16> {
    seq![b as u16, (b + 1) as u16, (b + 2) as u16]
}

/// The indices of a convex polygon with `sides` corners whose first vertex has
/// index `b`: a fan of `sides - 2` triangles around the first corner.
pub open spec fn polygon_indices(b: int, sides: int) -> Seq<u16>
    decreases sides,
{
    if sides < 3 {
        Seq::empty()
    } else {
        polygon_indices(b, sides - 1) + seq![b as u16, (b + sides - 1) as u16, (b + sides - 2) as u16]
    }
}

/// The queued items of a frame.
pub struct DrawState<V, L, X, Y> {
    pub vertices: Seq<V>,
    pub indices: Seq<u16>,
    pub switches: Seq<SwitchPoint>,
    pub text: Seq<X>,
    pub transformed_text: Seq<Y>,
    pub lines: Seq<L>,
}

impl<V, L, X, Y> DrawState<V, L, X, Y> {
    /// Every index names a queued vertex.
    pub open spec fn indices_in_range(self) -> bool {
        forall|i: int| 0 <= i < self.indices.len() ==> (#[trigger] self.indices[i] as int) < self.vertices.len()
    }

    /// The switches are in the order of the index list, and none lies past its end.
    pub open spec fn switches_ordered(self) -> bool {
        &&& forall|i: int, j: int|
            0 <= i < j < self.switches.len() ==> #[trigger] self.switches[i].spec_point()
                <= #[trigger] self.switches[j].spec_point()
        &&& forall|i: int| 0 <= i < self.switches.len() ==> #[trigger] self.switches[i].spec_point() <= self.indices.len()
    }

    /// The queue after an untextured rectangle with the given vertices.
    pub open spec fn after_rectangle(self, vertices: Seq<V>) -> Self {
        DrawState {
            vertices: self.vertices + vertices,
            indices: self.indices + rectangle_indices(next_base(self.vertices.len())),
            switches: with_white_pixel(self.switches, self.indices.len() as usize),
            ..self
        }
    }

    /// The queue after a rectangle with the given vertices and texture.
    pub open spec fn after_textured_rectangle(self, vertices: Seq<V>, texture: u32) -> Self {
        DrawState {
            vertices: self.vertices + vertices,
            indices: self.indices + rectangle_indices(next_base(self.vertices.len())),
            switches: with_texture(self.switches, texture, self.indices.len() as usize),
            ..self
        }
    }

    /// The queue after an untextured triangle with the given vertices.
    pub open spec fn after_triangle(self, vertices: Seq<V>) -> Self {
        DrawState {
            vertices: self.vertices + vertices,
            indices: self.indices + triangle_indices(next_base(self.vertices.len())),
            switches: with_white_pixel(self.switches, self.indices.len() as usize),
            ..self
        }
    }

    /// The queue after an untextured polygon with `sides` corners and the given
    /// vertices; nothing changes for fewer than three corners.
    pub open spec fn after_polygon(self, sides: int, vertices: Seq<V>) -> Self {
        if sides < 3 {
            self
        } else {
            DrawState {
                vertices: self.vertices + vertices,
                indices: self.indices + polygon_indices(next_base(self.vertices.len()), sides),
                switches: with_white_pixel(self.switches, self.indices.len() as usize),
                ..self
            }
        }
    }

    /// The queue after a switch to the shader `id`.
    pub open spec fn after_shader_point(self, id: u32) -> Self {
        DrawState {
            switches: self.switches.push(SwitchPoint::Shader { id, point: self.indices.len() as usize }),
            ..self
        }
    }

    /// The queue after a switch to the uniforms of the shader options `id`.
    pub open spec fn after_shader_option_point(self, id: u32) -> Self {
        DrawState {
            switches: self.switches.push(
                SwitchPoint::BindGroup {
                    bind_group: BindGroups::ShaderOptions { bind_group: id, group_num: 2 },
                    point: self.indices.len() as usize,
                },
            ),
            ..self
        }
    }

    /// The base index of the next shape and its room: queueing `added` vertices
    /// with indices up to `base + added - 1` fits the `u16` range.
    pub open spec fn fits(self, added: int) -> bool {
        next_base(self.vertices.len()) + added <= INDEX_RANGE
    }
}

/// The items queued to be drawn in one frame, with `V` the vertex type of shapes,
/// `L` that of lines, and `X` and `Y` the two kinds of text.
pub struct DrawQueues<V, L, X, Y> {
    general_vertices: Vec<V>,
    general_indicies: Vec<u16>,
    general_switches: Vec<SwitchPoint>,
    text: Vec<X>,
    transformed_text: Vec<Y>,
    line_vertices: Vec<L>,
}

/// Everything a frame queued, taken out of the queues to be drawn.
pub struct QueuedItems<V, L, X, Y> {
    pub vertices: Vec<V>,
    pub indices: Vec<u16>,
    pub number_of_rectangle_indicies: u32,
    pub general_switches: Vec<SwitchPoint>,
    pub line_vertices: Vec<L>,
    pub number_of_line_verticies: u32,
    pub text: Vec<X>,
    pub transformed_text: Vec<Y>,
}

impl<V, L, X, Y> View for DrawQueues<V, L, X, Y> {
    type V = DrawState<V, L, X, Y>;

    closed spec fn view(&self) -> DrawState<V, L, X, Y> {
        DrawState {
            vertices: self.general_vertices@,
            indices: self.general_indicies@,
            switches: self.general_switches@,
            text: self.text@,
            transformed_text: self.transformed_text@,
            lines: self.line_vertices@,
        }
    }
}

fn take_vec<T>(v: &mut Vec<T>) -> (taken: Vec<T>)
    ensures
        taken@ == old(v)@,
        final(v)@.len() == 0,
{
    let mut taken = Vec::new();
    std::mem::swap(v, &mut taken);
    taken
}

proof fn lemma_last_texture_prefix(s: Seq<SwitchPoint>, i: int)
    requires
        0 < i <= s.len(),
        !s[i - 1].spec_is_texture(),
    ensures
        last_texture_switch(s.subrange(0, i)) == last_texture_switch(s.subrange(0, i - 1)),
{
    assert(s.subrange(0, i).drop_last() =~= s.subrange(0, i - 1));
}

/// The indices of a polygon name only its own corners: with its first vertex at
/// index `b`, every index lies from `b` up to the last corner, and there are three
/// for each of its `sides - 2` triangles.
pub proof fn lemma_polygon_indices_bounds(b: int, sides: int)
    requires
        0 <= b,
        b + sides <= INDEX_RANGE,
    ensures
        sides >= 3 ==> polygon_indices(b, sides).len() == 3 * (sides - 2),
        forall|j: int|
            0 <= j < polygon_indices(b, sides).len() ==> b <= #[trigger] polygon_indices(b, sides)[j] < b + sides,
    decreases sides,
{
    if sides >= 3 {
        lemma_polygon_indices_bounds(b, sides - 1);
        let prev = polygon_indices(b, sides - 1);
        assert forall|j: int| 0 <= j < polygon_indices(b, sides).len() implies b <= #[trigger] polygon_indices(
            b,
            sides,
        )[j] < b + sides by {
            if j < prev.len() {
                assert(polygon_indices(b, sides)[j] == prev[j]);
            }
        }
    }
}

proof fn lemma_last_texture_is_member(s: Seq<SwitchPoint>)
    ensures
        last_texture_switch(s) matches Some(p) ==> exists|i: int| 0 <= i < s.len() && #[trigger] s[i] == p,
    decreases s.len(),
{
    if s.len() > 0 && !s.last().spec_is_texture() {
        lemma_last_texture_is_member(s.drop_last());
        match last_texture_switch(s) {
            Some(p) => {
                let i = choose|i: int| 0 <= i < s.drop_last().len() && #[trigger] s.drop_last()[i] == p;
                assert(s[i] == p);
            },
            None => {},
        }
    } else if s.len() > 0 {
        assert(s[s.len() - 1] == s.last());
    }
}

/// An untextured shape is drawn with the white pixel from its first index on.
/// Queueing a rectangle, a triangle or a polygon of at least three corners keeps the
/// indices and switches already queued, and adds at most one switch: one to the
/// white pixel, placed where the shape's indices begin (the old length of the index
/// list). Afterwards the texture in use is the white pixel, from a point no later
/// than where the shape begins, so no index of the shape is drawn with another
/// texture.
pub proof fn lemma_untextured_shapes_start_white<V, L, X, Y>(s: DrawState<V, L, X, Y>, vertices: Seq<V>, sides: int)
    requires
        s.switches_ordered(),
    ensures
        ({
            let white = SwitchPoint::BindGroup { bind_group: BindGroups::WhitePixel, point: s.indices.len() as usize };
            &&& s.after_rectangle(vertices).indices.subrange(0, s.indices.len() as int) == s.indices
            &&& s.after_triangle(vertices).indices.subrange(0, s.indices.len() as int) == s.indices
            &&& sides >= 3 ==> s.after_polygon(sides, vertices).indices.subrange(0, s.indices.len() as int) == s.indices
            &&& s.after_rectangle(vertices).switches == s.switches || s.after_rectangle(vertices).switches
                == s.switches.push(white)
            &&& s.after_triangle(vertices).switches == s.switches || s.after_triangle(vertices).switches
                == s.switches.push(white)
            &&& sides >= 3 ==> (s.after_polygon(sides, vertices).switches == s.switches || s.after_polygon(
                sides,
                vertices,
            ).switches == s.switches.push(white))
            &&& last_texture_switch(s.after_rectangle(vertices).switches) matches Some(p) && p.spec_is_white_pixel()
                && p.spec_point() <= s.indices.len()
            &&& last_texture_switch(s.after_triangle(vertices).switches) matches Some(p) && p.spec_is_white_pixel()
                && p.spec_point() <= s.indices.len()
            &&& sides >= 3 ==> (last_texture_switch(s.after_polygon(sides, vertices).switches) matches Some(p)
                && p.spec_is_white_pixel() && p.spec_point() <= s.indices.len())
        }),
{
    let point = s.indices.len() as usize;
    let w = with_white_pixel(s.switches, point);
    lemma_white_pixel_in_use(s.switches, point);
    lemma_last_texture_is_member(s.switches);
    lemma_last_texture_is_member(w);
    if w != s.switches {
        assert(w.drop_last() =~= s.switches);
    }
    assert(s.after_rectangle(vertices).indices.subrange(0, s.indices.len() as int) =~= s.indices);
    assert(s.after_triangle(vertices).indices.subrange(0, s.indices.len() as int) =~= s.indices);
    if sides >= 3 {
        assert(s.after_polygon(sides, vertices).indices.subrange(0, s.indices.len() as int) =~= s.indices);
    }
}

/// A textured rectangle is drawn with its texture from its first index on: queueing
/// it keeps the indices and switches already queued and adds at most one switch,
/// one to that texture placed where the rectangle's indices begin; afterwards that
/// texture is in use, from a point no later than where the rectangle begins.
pub proof fn lemma_textured_rectangle_starts_textured<V, L, X, Y>(
    s: DrawState<V, L, X, Y>,
    vertices: Seq<V>,
    texture: u32,
)
    requires
        s.switches_ordered(),
    ensures
        ({
            let t = s.after_textured_rectangle(vertices, texture);
            let switch = SwitchPoint::BindGroup {
                bind_group: BindGroups::Texture { bind_group: texture },
                point: s.indices.len() as usize,
            };
            &&& t.indices.subrange(0, s.indices.len() as int) == s.indices
            &&& t.switches == s.switches || t.switches == s.switches.push(switch)
            &&& last_texture_switch(t.switches) matches Some(p) && p.spec_point() <= s.indices.len() && p
                == SwitchPoint::BindGroup { bind_group: BindGroups::Texture { bind_group: texture }, point: p.spec_point() }
        }),
{
    let point = s.indices.len() as usize;
    let w = with_texture(s.switches, texture, point);
    lemma_texture_in_use(s.switches, texture, point);
    lemma_last_texture_is_member(s.switches);
    lemma_last_texture_is_member(w);
    if w != s.switches {
        assert(w.drop_last() =~= s.switches);
    }
    assert(s.after_textured_rectangle(vertices, texture).indices.subrange(0, s.indices.len() as int) =~= s.indices);
}

/// After an untextured shape is queued, the white pixel is the texture in use.
pub proof fn lemma_white_pixel_in_use(switches: Seq<SwitchPoint>, point: usize)
    ensures
        last_texture_switch(with_white_pixel(switches, point)) matches Some(p) && p.spec_is_white_pixel(),
{
    let after = with_white_pixel(switches, point);
    if after != switches {
        assert(after.drop_last() =~= switches);
    }
}

/// After a textured rectangle is queued, its texture is the one in use.
pub proof fn lemma_texture_in_use(switches: Seq<SwitchPoint>, texture: u32, point: usize)
    ensures
        last_texture_switch(with_texture(switches, texture, point)) matches Some(
            SwitchPoint::BindGroup { bind_group: BindGroups::Texture { bind_group }, .. },
        ) && bind_group == texture,
{
}

/// Queueing untextured shapes one after another adds at most one switch: a switch
/// to the white pixel is never added while it is already in use.
pub proof fn lemma_no_repeated_white_pixel(switches: Seq<SwitchPoint>, p: usize, q: usize)
    ensures
        with_white_pixel(with_white_pixel(switches, p), q) == with_white_pixel(switches, p),
{
    lemma_white_pixel_in_use(switches, p);
}

/// Queueing rectangles with one texture one after another adds at most one switch.
pub proof fn lemma_no_repeated_texture(switches: Seq<SwitchPoint>, texture: u32, p: usize, q: usize)
    ensures
        with_texture(with_texture(switches, texture, p), texture, q) == with_texture(switches, texture, p),
{
    lemma_texture_in_use(switches, texture, p);
}

/// As long as the vertices fit the `u16` range, every queued index names a queued
/// vertex: each kind of shape keeps that true.
pub proof fn lemma_shapes_keep_indices_in_range<V, L, X, Y>(
    s: DrawState<V, L, X, Y>,
    vertices: Seq<V>,
    texture: u32,
    sides: int,
    id: u32,
)
    requires
        s.indices_in_range(),
        s.vertices.len() + vertices.len() <= INDEX_RANGE,
    ensures
        vertices.len() == 4 ==> s.after_rectangle(vertices).indices_in_range(),
        vertices.len() == 4 ==> s.after_textured_rectangle(vertices, texture).indices_in_range(),
        vertices.len() == 3 ==> s.after_triangle(vertices).indices_in_range(),
        vertices.len() == sides ==> s.after_polygon(sides, vertices).indices_in_range(),
        s.after_shader_point(id).indices_in_range(),
        s.after_shader_option_point(id).indices_in_range(),
{
    let b = next_base(s.vertices.len());
    if vertices.len() > 0 {
        assert(b == s.vertices.len());
    }
    if vertices.len() == 4 {
        let r = s.after_rectangle(vertices);
        assert forall|i: int| 0 <= i < r.indices.len() implies (#[trigger] r.indices[i] as int) < r.vertices.len() by {
            if i >= s.indices.len() {
                assert(r.indices[i] == rectangle_indices(b)[i - s.indices.len()]);
            } else {
                assert(r.indices[i] == s.indices[i]);
            }
        }
        let t = s.after_textured_rectangle(vertices, texture);
        assert(t.indices == r.indices && t.vertices == r.vertices);
    }
    if vertices.len() == 3 {
        let r = s.after_triangle(vertices);
        assert forall|i: int| 0 <= i < r.indices.len() implies (#[trigger] r.indices[i] as int) < r.vertices.len() by {
            if i >= s.indices.len() {
                assert(r.indices[i] == triangle_indices(b)[i - s.indices.len()]);
            } else {
                assert(r.indices[i] == s.indices[i]);
            }
        }
    }
    if vertices.len() == sides && sides >= 3 {
        lemma_polygon_indices_bounds(b, sides);
        let r = s.after_polygon(sides, vertices);
        assert forall|i: int| 0 <= i < r.indices.len() implies (#[trigger] r.indices[i] as int) < r.vertices.len() by {
            if i >= s.indices.len() {
                assert(r.indices[i] == polygon_indices(b, sides)[i - s.indices.len()]);
            } else {
                assert(r.indices[i] == s.indices[i]);
            }
        }
    }
}

/// Switches only ever go at the end of the index list, so every kind of queued item
/// keeps the switches in index order and within the list.
pub proof fn lemma_items_keep_switches_ordered<V, L, X, Y>(
    s: DrawState<V, L, X, Y>,
    vertices: Seq<V>,
    texture: u32,
    sides: int,
    id: u32,
)
    requires
        s.switches_ordered(),
        s.indices.len() <= usize::MAX,
    ensures
        s.after_rectangle(vertices).switches_ordered(),
        s.after_textured_rectangle(vertices, texture).switches_ordered(),
        s.after_triangle(vertices).switches_ordered(),
        s.after_polygon(sides, vertices).switches_ordered(),
        s.after_shader_point(id).switches_ordered(),
        s.after_shader_option_point(id).switches_ordered(),
{
    let p = s.indices.len() as usize;
    assert(s.after_rectangle(vertices).switches_ordered()) by {
        let w = with_white_pixel(s.switches, p);
        assert(forall|i: int| 0 <= i < s.switches.len() ==> #[trigger] w[i] == s.switches[i]);
    }
    assert(s.after_triangle(vertices).switches_ordered()) by {
        let w = with_white_pixel(s.switches, p);
        assert(forall|i: int| 0 <= i < s.switches.len() ==> #[trigger] w[i] == s.switches[i]);
    }
    assert(s.after_polygon(sides, vertices).switches_ordered()) by {
        let w = with_white_pixel(s.switches, p);
        assert(forall|i: int| 0 <= i < s.switches.len() ==> #[trigger] w[i] == s.switches[i]);
    }
    assert(s.after_textured_rectangle(vertices, texture).switches_ordered()) by {
        let w = with_texture(s.switches, texture, p);
        assert(forall|i: int| 0 <= i < s.switches.len() ==> #[trigger] w[i] == s.switches[i]);
    }
    assert(s.after_shader_point(id).switches_ordered()) by {
        let w = s.after_shader_point(id).switches;
        assert(forall|i: int| 0 <= i < s.switches.len() ==> #[trigger] w[i] == s.switches[i]);
    }
    assert(s.after_shader_option_point(id).switches_ordered()) by {
        let w = s.after_shader_option_point(id).switches;
        assert(forall|i: int| 0 <= i < s.switches.len() ==> #[trigger] w[i] == s.switches[i]);
    }
}

impl<V, L, X, Y> DrawQueues<V, L, X, Y> {
    /// Empty queues.
    pub fn new() -> (q: Self)
        ensures
            q@.vertices.len() == 0,
            q@.indices.len() == 0,
            q@.switches.len() == 0,
            q@.text.len() == 0,
            q@.transformed_text.len() == 0,
            q@.lines.len() == 0,
    {
        Self {
            general_vertices: Vec::new(),
            general_indicies: Vec::new(),
            general_switches: Vec::new(),
            text: Vec::new(),
            transformed_text: Vec::new(),
            line_vertices: Vec::new(),
        }
    }

    fn last_texture_switch(&self) -> (r: Option<SwitchPoint>)
        ensures
            r == last_texture_switch(self@.switches),
    {
        let mut i = self.general_switches.len();
        assert(self.general_switches@.subrange(0, i as int) =~= self.general_switches@);
        while i > 0
            invariant
                i <= self.general_switches@.len(),
                last_texture_switch(self.general_switches@) == last_texture_switch(
                    self.general_switches@.subrange(0, i as int),
                ),
            decreases i,
        {
            let switch = self.general_switches[i - 1];
            if switch.is_texture() {
                assert(self.general_switches@.subrange(0, i as int).last() == switch);
                return Some(switch);
            }
            proof {
                lemma_last_texture_prefix(self.general_switches@, i as int);
            }
            i = i - 1;
        }
        None
    }

    fn use_white_pixel(&mut self, point: usize)
        ensures
            final(self)@ == (DrawState { switches: with_white_pixel(old(self)@.switches, point), ..old(self)@ }),
    {
        let needs_switch = match self.last_texture_switch() {
            Some(switch) => !switch.is_white_pixel(),
            None => true,
        };
        if needs_switch {
            self.general_switches.push(SwitchPoint::BindGroup { bind_group: BindGroups::WhitePixel, point });
        }
    }

    fn next_vertex_index(&self) -> (b: u16)
        ensures
            b as int == next_base(self@.vertices.len()),
    {
        (self.general_vertices.len() % INDEX_RANGE) as u16
    }

}

impl<V: Copy, L, X, Y> DrawQueues<V, L, X, Y> {
    /// Queues a rectangle drawn without a texture. Its indices start at the number
    /// of queued vertices, wrapped to the `u16` range, and must fit that range.
    pub fn add_rectangle(&mut self, vertices: [V; 4])
        requires
            old(self)@.fits(4),
        ensures
            final(self)@ == old(self)@.after_rectangle(vertices@),
    {
        let number_of_verticies = self.next_vertex_index();
        let number_of_inidices = self.general_indicies.len();
        self.use_white_pixel(number_of_inidices);
        self.push_vertices4(vertices);
        self.push_indices(&[
            number_of_verticies,
            1 + number_of_verticies,
            2 + number_of_verticies,
            3 + number_of_verticies,
            number_of_verticies,
            2 + number_of_verticies,
        ]);
        assert(self.general_indicies@ =~= old(self)@.indices + rectangle_indices(
            next_base(old(self)@.vertices.len()),
        ));
    }

    /// Queues a rectangle drawn with the texture whose bind group is `texture`. A
    /// switch to that texture is added unless it is the texture in use. The
    /// texture's bind group in the cache is marked as just used; when the cache has
    /// none, the result is `true` and the caller makes one and adds it.
    pub fn add_textured_rectange<B>(
        &mut self,
        cache: &mut ResourceCache<B>,
        vertices: [V; 4],
        texture: u32,
    ) -> (needs_bind_group: bool)
        requires
            old(self)@.fits(4),
        ensures
            final(self)@ == old(self)@.after_textured_rectangle(vertices@, texture),
            needs_bind_group == !old(cache)@.contains_key(texture),
            !needs_bind_group ==> final(cache)@ == old(cache)@.insert(
                texture,
                CachedResource { resource: old(cache)@[texture].resource, time_since_used: 0 },
            ),
            needs_bind_group ==> final(cache)@ == old(cache)@,
    {
        let present = cache.touch(texture);
        let number_of_verticies = self.next_vertex_index();
        let number_of_inidices = self.general_indicies.len();
        let same_texture = match self.last_texture_switch() {
            Some(SwitchPoint::BindGroup { bind_group: BindGroups::Texture { bind_group }, .. }) => bind_group
                == texture,
            _ => false,
        };
        if !same_texture {
            self.general_switches.push(
                SwitchPoint::BindGroup {
                    bind_group: BindGroups::Texture { bind_group: texture },
                    point: number_of_inidices,
                },
            );
        }
        self.push_vertices4(vertices);
        self.push_indices(&[
            number_of_verticies,
            1 + number_of_verticies,
            2 + number_of_verticies,
            3 + number_of_verticies,
            number_of_verticies,
            2 + number_of_verticies,
        ]);
        assert(self.general_indicies@ =~= old(self)@.indices + rectangle_indices(
            next_base(old(self)@.vertices.len()),
        ));
        !present
    }

    /// Queues a line.
    pub fn add_line(&mut self, start: L, end: L)
        ensures
            final(self)@ == (DrawState { lines: old(self)@.lines.push(start).push(end), ..old(self)@ }),
    {
        self.line_vertices.push(start);
        self.line_vertices.push(end);
    }

    /// Queues a convex polygon with `number_of_sides` corners, given as its
    /// vertices in order. Polygons with fewer than three corners are ignored.
    pub fn add_regular_n_gon(&mut self, number_of_sides: u16, vertices: Vec<V>)
        requires
            number_of_sides >= 3 ==> vertices@.len() == number_of_sides,
            number_of_sides >= 3 ==> old(self)@.fits(number_of_sides as int),
        ensures
            final(self)@ == old(self)@.after_polygon(number_of_sides as int, vertices@),
    {
        if number_of_sides < 3 {
            return;
        }
        let number_of_vertices = self.next_vertex_index();
        let number_of_inidices = self.general_indicies.len();
        let number_of_triangles = number_of_sides - 2;
        let ghost b = number_of_vertices as int;
        let mut indicies: Vec<u16> = Vec::new();
        let mut i: u16 = 1;
        while i <= number_of_triangles
            invariant
                1 <= i <= number_of_triangles + 1,
                number_of_triangles == number_of_sides - 2,
                b + number_of_sides <= INDEX_RANGE,
                b == number_of_vertices,
                indicies@ == polygon_indices(b, i + 1),
            decreases number_of_triangles + 1 - i,
        {
            indicies.push(number_of_vertices);
            indicies.push(i + 1 + number_of_vertices);
            indicies.push(i + number_of_vertices);
            i = i + 1;
        }
        self.use_white_pixel(number_of_inidices);
        let mut vertices = vertices;
        self.general_vertices.append(&mut vertices);
        self.general_indicies.append(&mut indicies);
    }

    /// Queues a triangle drawn without a texture.
    pub fn add_triangle(&mut self, points: [V; 3])
        requires
            old(self)@.fits(3),
        ensures
            final(self)@ == old(self)@.after_triangle(points@),
    {
        let number_of_verticies = self.next_vertex_index();
        let number_of_inidices = self.general_indicies.len();
        self.use_white_pixel(number_of_inidices);
        self.general_vertices.push(points[0]);
        self.general_vertices.push(points[1]);
        self.general_vertices.push(points[2]);
        assert(self.general_vertices@ =~= old(self)@.vertices + points@);
        self.push_indices(&[number_of_verticies, number_of_verticies + 1, number_of_verticies + 2]);
        assert(self.general_indicies@ =~= old(self)@.indices + triangle_indices(
            next_base(old(self)@.vertices.len()),
        ));
    }

    /// Queues a switch to the shader `id` at the current end of the index list. The
    /// shader in the cache is marked as just used; when the cache has none, the
    /// result is `true` and the caller makes it and adds it.
    pub fn add_shader_point<S>(&mut self, shader_cache: &mut ResourceCache<S>, id: u32) -> (needs_shader: bool)
        ensures
            final(self)@ == old(self)@.after_shader_point(id),
            needs_shader == !old(shader_cache)@.contains_key(id),
            !needs_shader ==> final(shader_cache)@ == old(shader_cache)@.insert(
                id,
                CachedResource { resource: old(shader_cache)@[id].resource, time_since_used: 0 },
            ),
            needs_shader ==> final(shader_cache)@ == old(shader_cache)@,
    {
        let present = shader_cache.touch(id);
        let number_of_inidices = self.general_indicies.len();
        self.general_switches.push(SwitchPoint::Shader { id, point: number_of_inidices });
        !present
    }

    /// Queues a switch to the uniforms of the shader options `id`, bound as group 2,
    /// at the current end of the index list. Their bind group in the cache is marked
    /// as just used; when the cache has none, the result is `true` and the caller
    /// makes it and adds it.
    pub fn add_shader_option_point<B>(&mut self, bind_group_cache: &mut ResourceCache<B>, id: u32) -> (needs_bind_group: bool)
        ensures
            final(self)@ == old(self)@.after_shader_option_point(id),
            needs_bind_group == !old(bind_group_cache)@.contains_key(id),
            !needs_bind_group ==> final(bind_group_cache)@ == old(bind_group_cache)@.insert(
                id,
                CachedResource { resource: old(bind_group_cache)@[id].resource, time_since_used: 0 },
            ),
            needs_bind_group ==> final(bind_group_cache)@ == old(bind_group_cache)@,
    {
        let present = bind_group_cache.touch(id);
        let number_of_indices = self.general_indicies.len();
        self.general_switches.push(
            SwitchPoint::BindGroup {
                bind_group: BindGroups::ShaderOptions { bind_group: id, group_num: 2 },
                point: number_of_indices,
            },
        );
        !present
    }

    /// Queues a piece of text.
    pub fn add_text(&mut self, text: X)
        ensures
            final(self)@ == (DrawState { text: old(self)@.text.push(text), ..old(self)@ }),
    {
        self.text.push(text);
    }

    /// Queues a piece of transformed text.
    pub fn add_transfromed_text(&mut self, text: Y)
        ensures
            final(self)@ == (DrawState { transformed_text: old(self)@.transformed_text.push(text), ..old(self)@ }),
    {
        self.transformed_text.push(text);
    }

    /// Takes everything queued, leaving the queues empty. The counts are those of
    /// the indices and line vertices, wrapped to the `u32` range.
    pub fn process_queued(&mut self) -> (items: QueuedItems<V, L, X, Y>)
        ensures
            items.vertices@ == old(self)@.vertices,
            items.indices@ == old(self)@.indices,
            items.general_switches@ == old(self)@.switches,
            items.line_vertices@ == old(self)@.lines,
            items.text@ == old(self)@.text,
            items.transformed_text@ == old(self)@.transformed_text,
            items.number_of_rectangle_indicies as int == old(self)@.indices.len() % 0x1_0000_0000,
            items.number_of_line_verticies as int == old(self)@.lines.len() % 0x1_0000_0000,
            final(self)@.vertices.len() == 0,
            final(self)@.indices.len() == 0,
            final(self)@.switches.len() == 0,
            final(self)@.text.len() == 0,
            final(self)@.transformed_text.len() == 0,
            final(self)@.lines.len() == 0,
    {
        let number_of_line_verticies = (self.line_vertices.len() as u64 % 0x1_0000_0000) as u32;
        let number_of_rectangle_indicies = (self.general_indicies.len() as u64 % 0x1_0000_0000) as u32;
        let vertices = take_vec(&mut self.general_vertices);
        let indices = take_vec(&mut self.general_indicies);
        let line_vertices = take_vec(&mut self.line_vertices);
        let text = take_vec(&mut self.text);
        let transformed_text = take_vec(&mut self.transformed_text);
        let general_switches = take_vec(&mut self.general_switches);
        QueuedItems {
            vertices,
            indices,
            number_of_rectangle_indicies,
            general_switches,
            line_vertices,
            number_of_line_verticies,
            text,
            transformed_text,
        }
    }

    fn push_vertices4(&mut self, vertices: [V; 4])
        ensures
            final(self)@ == (DrawState { vertices: old(self)@.vertices + vertices@, ..old(self)@ }),
    {
        self.general_vertices.push(vertices[0]);
        self.general_vertices.push(vertices[1]);
        self.general_vertices.push(vertices[2]);
        self.general_vertices.push(vertices[3]);
        assert(self.general_vertices@ =~= old(self)@.vertices + vertices@);
    }

    fn push_indices(&mut self, indices: &[u16])
        ensures
            final(self)@ == (DrawState { indices: old(self)@.indices + indices@, ..old(self)@ }),
    {
        let mut i: usize = 0;
        while i < indices.len()
            invariant
                i <= indices@.len(),
                self@ == (DrawState { indices: old(self)@.indices + indices@.subrange(0, i as int), ..old(self)@ }),
            decreases indices@.len() - i,
        {
            self.general_indicies.push(indices[i]);
            assert(old(self)@.indices + indices@.subrange(0, i + 1) =~= (old(self)@.indices + indices@.subrange(
                0,
                i as int,
            )).push(indices@[i as int]));
            i = i + 1;
        }
        assert(indices@.subrange(0, indices@.len() as int) =~= indices@);
    }
}

} // verus!
