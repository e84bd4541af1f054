//! The bookkeeping of materials: how many bytes of vertices and indices are queued,
//! the indices each shape adds, and how large a buffer grows when it is full.
//!
//! The GPU buffers themselves live outside this module.
use std::marker::PhantomData;
use vstd::prelude::*;

use crate::resource::ResourceId;
use crate::shader::UniformData;

verus! {

/// The alignment, in bytes, that copies between GPU buffers need.
pub const COPY_BUFFER_ALIGNMENT: u64 = 4;

/// The size a full buffer grows to: twice its size, or the size needed rounded up
/// past the next multiple of the copy alignment, whichever is larger.
pub open spec fn spec_grown_size(current: u64, size_needed: u64) -> int {
    let aligned = size_needed + (COPY_BUFFER_ALIGNMENT - size_needed % COPY_BUFFER_ALIGNMENT);
    if current * 2 >= aligned {
        current * 2
    } else {
        aligned
    }
}

/// The size a full buffer of `current` bytes grows to when `size_needed` bytes
/// are needed.
pub fn grown_buffer_size(current: u64, size_needed: u64) -> (size: u64)
    requires
        current * 2 <= u64::MAX,
        size_needed + COPY_BUFFER_ALIGNMENT <= u64::MAX,
    ensures
        size == spec_grown_size(current, size_needed),
{
    let size_needed = size_needed + (COPY_BUFFER_ALIGNMENT - (size_needed % COPY_BUFFER_ALIGNMENT));
    let doubled = current * 2;
    if doubled >= size_needed {
        doubled
    } else {
        size_needed
    }
}

/// A grown buffer holds what is needed, is at least twice as large as before,
/// and, when it is grown to the size needed, that size is a multiple of the copy
/// alignment.
pub proof fn lemma_grown_size(current: u64, size_needed: u64)
    ensures
        spec_grown_size(current, size_needed) > size_needed,
        spec_grown_size(current, size_needed) >= current * 2,
        spec_grown_size(current, size_needed) != current * 2 ==> spec_grown_size(current, size_needed)
            % COPY_BUFFER_ALIGNMENT as int == 0,
{
}

/// The indices of a polygon with `sides` corners whose first vertex has index
/// `b`: a fan of triangles around the first corner.
pub open spec fn fan_indices(b: int, sides: int) -> Seq<u16>
    decreases sides,
{
    if sides < 3 {
        Seq::empty()
    } else {
        fan_indices(b, sides - 1) + seq![b as u16, (b + sides - 2) as u16, (b + sides - 1) as u16]
    }
}

/// The number of copies of the last triangle added so that the index list's size
/// suits buffer copies: a lone triangle is listed twice, as
/// [`MaterialCounts::triangle_indices`] lists it.
pub open spec fn padding_triangles(num_indices: int) -> int {
    if num_indices == 3 {
        1
    } else if num_indices < 12 {
        (12int % num_indices) / 3
    } else {
        (num_indices % 12) / 3
    }
}

/// The indices of a polygon as a material queues them: the fan, then copies of its
/// last triangle as [`padding_triangles`] says.
pub open spec fn padded_fan_indices(b: int, sides: int) -> Seq<u16> {
    let fan = fan_indices(b, sides);
    let last = fan.subrange(fan.len() - 3, fan.len() as int);
    fan + Seq::new((3 * padding_triangles(fan.len() as int)) as nat, |i: int| last[i % 3])
}

proof fn lemma_fan_len(b: int, sides: int)
    ensures
        sides >= 3 ==> fan_indices(b, sides).len() == 3 * (sides - 2),
        sides < 3 ==> fan_indices(b, sides).len() == 0,
    decreases sides,
{
    if sides >= 3 {
        lemma_fan_len(b, sides - 1);
    }
}

/// The indices of a polygon with `number_of_sides` corners, at least three, whose
/// first vertex has index `base`, padded with copies of the last triangle.
pub fn n_gon_indices(base: u16, number_of_sides: usize) -> (indices: Vec<u16>)
    requires
        3 <= number_of_sides,
        base as int + number_of_sides <= 0x10000,
    ensures
        indices@ == padded_fan_indices(base as int, number_of_sides as int),
{
    let number_of_triangles = (number_of_sides - 2) as u16;
    let ghost b = base as int;
    let mut indicies: Vec<u16> = Vec::new();
    let mut i: u16 = 1;
    while i <= number_of_triangles
        invariant
            1 <= i <= number_of_triangles + 1,
            number_of_triangles == number_of_sides - 2,
            b + number_of_sides <= 0x10000,
            b == base,
            indicies@ == fan_indices(b, i + 1),
        decreases number_of_triangles + 1 - i,
    {
        indicies.push(base);
        indicies.push(i + base);
        indicies.push(i + 1 + base);
        i = i + 1;
    }
    proof {
        lemma_fan_len(b, number_of_sides as int);
    }
    let ghost fan = indicies@;
    let num_indicies = indicies.len();
    let triangles_to_add = if num_indicies == 3 {
        1
    } else if num_indicies < 12 {
        (12 % num_indicies) / 3
    } else {
        (num_indicies % 12) / 3
    };
    let ghost last = fan.subrange(fan.len() - 3, fan.len() as int);
    let mut t: usize = 0;
    while t < triangles_to_add
        invariant
            t <= triangles_to_add,
            triangles_to_add == padding_triangles(fan.len() as int),
            num_indicies == fan.len(),
            num_indicies >= 3,
            last == fan.subrange(fan.len() - 3, fan.len() as int),
            indicies@.len() == fan.len() + 3 * t,
            indicies@.subrange(0, fan.len() as int) == fan,
            forall|j: int| fan.len() <= j < indicies@.len() ==> #[trigger] indicies@[j] == last[(j - fan.len()) % 3],
        decreases triangles_to_add - t,
    {
        let a = indicies[num_indicies - 3];
        let b2 = indicies[num_indicies - 2];
        let c = indicies[num_indicies - 1];
        proof {
            assert(indicies@[num_indicies - 3] == fan[num_indicies - 3]);
            assert(indicies@[num_indicies - 2] == fan[num_indicies - 2]);
            assert(indicies@[num_indicies - 1] == fan[num_indicies - 1]);
        }
        let ghost before = indicies@;
        indicies.push(a);
        indicies.push(b2);
        indicies.push(c);
        proof {
            assert(indicies@.subrange(0, fan.len() as int) =~= before.subrange(0, fan.len() as int));
            assert forall|j: int| fan.len() <= j < indicies@.len() implies #[trigger] indicies@[j] == last[(j
                - fan.len()) % 3] by {
                if j >= before.len() {
                    let k = j - fan.len();
                    assert(k == 3 * t + (j - before.len()));
                    assert(k % 3 == j - before.len()) by (nonlinear_arith)
                        requires
                            k == 3 * t + (j - before.len()),
                            0 <= j - before.len() < 3,
                            t >= 0,
                    ;
                } else {
                    assert(indicies@[j] == before[j]);
                }
            }
        }
        t = t + 1;
    }
    assert(indicies@ =~= padded_fan_indices(b, number_of_sides as int));
    indicies
}

/// Padding keeps the polygon's indices to an even number, so that their bytes, two
/// for each, fill whole copy alignment units.
pub proof fn lemma_padding_aligns(b: int, sides: int)
    requires
        sides >= 3,
    ensures
        padded_fan_indices(b, sides).len() % 2 == 0,
{
    lemma_fan_len(b, sides);
    let n = 3 * (sides - 2);
    let k = sides - 2;
    let p = padding_triangles(n);
    assert(padded_fan_indices(b, sides).len() == n + 3 * p);
    if n < 12 {
        if k == 1 {
            assert(n == 3);
            assert(p == 1);
        } else if k == 2 {
            assert(n == 6);
            assert(12int % 6 == 0);
            assert(p == 0);
        } else {
            assert(k == 3);
            assert(n == 9);
            assert(12int % 9 == 3);
            assert(p == 1);
        }
    } else {
        assert(n % 12 == 3 * (k % 4)) by (nonlinear_arith)
            requires
                n == 3 * k,
                k >= 4,
        ;
        assert(p == k % 4);
        assert((3 * k + 3 * (k % 4)) % 2 == 0) by (nonlinear_arith)
            requires
                k >= 0,
        ;
    }
}

proof fn lemma_fan_bounds(b: int, sides: int)
    requires
        0 <= b,
        b + sides <= 0x10000,
    ensures
        forall|j: int| 0 <= j < fan_indices(b, sides).len() ==> b <= #[trigger] fan_indices(b, sides)[j] < b + sides,
    decreases sides,
{
    if sides >= 3 {
        lemma_fan_bounds(b, sides - 1);
        let prev = fan_indices(b, sides - 1);
        assert forall|j: int| 0 <= j < fan_indices(b, sides).len() implies b <= #[trigger] fan_indices(b, sides)[j]
            < b + sides by {
            if j < prev.len() {
                assert(fan_indices(b, sides)[j] == prev[j]);
            }
        }
    }
}

/// The indices a polygon with `sides` corners adds, its first corner at index `b`,
/// name only its own corners: each lies from `b` up to its last corner. There are
/// at least three for each of its `sides - 2` triangles, and with indices of two
/// bytes they take a whole number of 4-byte copy alignment units.
pub proof fn lemma_n_gon_indices_fit(b: int, sides: int)
    requires
        0 <= b,
        sides >= 3,
        b + sides <= 0x10000,
    ensures
        padded_fan_indices(b, sides).len() >= 3 * (sides - 2),
        forall|j: int|
            0 <= j < padded_fan_indices(b, sides).len() ==> b <= #[trigger] padded_fan_indices(b, sides)[j] < b
                + sides,
        (padded_fan_indices(b, sides).len() * 2) as int % (COPY_BUFFER_ALIGNMENT as int) == 0,
{
    lemma_fan_len(b, sides);
    lemma_fan_bounds(b, sides);
    lemma_padding_aligns(b, sides);
    let fan = fan_indices(b, sides);
    let last = fan.subrange(fan.len() - 3, fan.len() as int);
    let padded = padded_fan_indices(b, sides);
    assert forall|j: int| 0 <= j < padded.len() implies b <= #[trigger] padded[j] < b + sides by {
        if j < fan.len() {
            assert(padded[j] == fan[j]);
        } else {
            let k = (j - fan.len()) % 3;
            assert(padded[j] == last[k]);
            assert(last[k] == fan[fan.len() - 3 + k]);
        }
    }
    let n = padded.len() as int;
    assert(n % 2 == 0);
    assert((n * 2) % 4 == 0) by (nonlinear_arith)
        requires
            n % 2 == 0,
            n >= 0,
    ;
}

/// The byte counts of the vertices and indices a material has queued, and the size
/// of one vertex and one index.
pub struct MaterialCounts {
    vertex_size: u64,
    vertex_count: u64,
    index_size: u64,
    index_count: u64,
}

impl MaterialCounts {
    /// The size of one vertex in bytes.
    pub closed spec fn spec_vertex_size(self) -> u64 {
        self.vertex_size
    }

    /// The size of one index in bytes.
    pub closed spec fn spec_index_size(self) -> u64 {
        self.index_size
    }

    /// The index the next shape's first vertex gets: the number of queued vertices,
    /// wrapped to the `u16` range.
    pub open spec fn next_index(self) -> int {
        (self.vertex_bytes() / self.spec_vertex_size()) as int % 0x10000
    }

    /// The bytes of vertices queued.
    pub closed spec fn vertex_bytes(self) -> u64 {
        self.vertex_count
    }

    /// The bytes of indices queued.
    pub closed spec fn index_bytes(self) -> u64 {
        self.index_count
    }

    /// Nothing queued, with the given sizes of a vertex and an index.
    pub fn new(vertex_size: u64, index_size: u64) -> (c: Self)
        requires
            vertex_size > 0,
            index_size > 0,
        ensures
            c.spec_vertex_size() == vertex_size,
            c.spec_index_size() == index_size,
            c.vertex_bytes() == 0,
            c.index_bytes() == 0,
    {
        Self { vertex_size, vertex_count: 0, index_size, index_count: 0 }
    }

    /// Returns the number of verticies in the buffer
    pub fn get_vertex_number(&self) -> (n: u64)
        requires
            self.spec_vertex_size() > 0,
        ensures
            n == self.vertex_bytes() / self.spec_vertex_size(),
    {
        self.vertex_count / self.vertex_size
    }

    /// Returns the number if indincies in the buffer
    pub fn get_index_number(&self) -> (n: u64)
        requires
            self.spec_index_size() > 0,
        ensures
            n == self.index_bytes() / self.spec_index_size(),
    {
        self.index_count / self.index_size
    }

    /// The bytes of vertices queued.
    pub fn vertex_count(&self) -> (n: u64)
        ensures
            n == self.vertex_bytes(),
    {
        self.vertex_count
    }

    /// The bytes of indices queued.
    pub fn index_count(&self) -> (n: u64)
        ensures
            n == self.index_bytes(),
    {
        self.index_count
    }

    /// The size of one vertex in bytes.
    pub fn vertex_size(&self) -> (n: u64)
        ensures
            n == self.spec_vertex_size(),
    {
        self.vertex_size
    }

    /// The size of one index in bytes.
    pub fn index_size(&self) -> (n: u64)
        ensures
            n == self.spec_index_size(),
    {
        self.index_size
    }

    /// The index the next shape's first vertex gets: the number of queued
    /// vertices, wrapped to the `u16` range.
    pub fn next_vertex_index(&self) -> (b: u16)
        requires
            self.spec_vertex_size() > 0,
        ensures
            b as int == (self.vertex_bytes() / self.spec_vertex_size()) as int % 0x10000,
    {
        (self.get_vertex_number() % 0x10000) as u16
    }

    /// Whether queueing `added` more bytes of vertices overflows a vertex buffer of
    /// `buffer_size` bytes.
    pub fn vertices_overflow(&self, added: u64, buffer_size: u64) -> (over: bool)
        requires
            self.vertex_bytes() + added <= u64::MAX,
        ensures
            over == (self.vertex_bytes() + added > buffer_size),
    {
        self.vertex_count + added > buffer_size
    }

    /// Whether queueing `added` more bytes of indices overflows an index buffer of
    /// `buffer_size` bytes.
    pub fn indices_overflow(&self, added: u64, buffer_size: u64) -> (over: bool)
        requires
            self.index_bytes() + added <= u64::MAX,
        ensures
            over == (self.index_bytes() + added > buffer_size),
    {
        self.index_count + added > buffer_size
    }

    /// Records that `vertices` vertices and `indices` indices were queued.
    pub fn record(&mut self, vertices: u64, indices: u64)
        requires
            old(self).vertex_bytes() + vertices * old(self).spec_vertex_size() <= u64::MAX,
            old(self).index_bytes() + indices * old(self).spec_index_size() <= u64::MAX,
        ensures
            final(self).vertex_bytes() == old(self).vertex_bytes() + vertices * old(self).spec_vertex_size(),
            final(self).index_bytes() == old(self).index_bytes() + indices * old(self).spec_index_size(),
            final(self).spec_vertex_size() == old(self).spec_vertex_size(),
            final(self).spec_index_size() == old(self).spec_index_size(),
    {
        proof {
            assert(vertices * self.vertex_size <= u64::MAX);
            assert(indices * self.index_size <= u64::MAX);
        }
        self.vertex_count = self.vertex_count + vertices * self.vertex_size;
        self.index_count = self.index_count + indices * self.index_size;
    }

    /// Queues a regular polygon with `number_of_sides` corners: returns the indices
    /// it adds, a fan around its first corner padded as [`padded_fan_indices`] says,
    /// and counts its corners and those indices. A polygon with fewer than three
    /// corners queues nothing.
    pub fn add_regular_n_gon(&mut self, number_of_sides: usize) -> (indices: Vec<u16>)
        requires
            old(self).spec_vertex_size() > 0,
            number_of_sides >= 3 ==> old(self).next_index() + number_of_sides <= 0x10000,
            number_of_sides >= 3 ==> old(self).vertex_bytes() + number_of_sides * old(self).spec_vertex_size()
                <= u64::MAX,
            number_of_sides >= 3 ==> old(self).index_bytes() + padded_fan_indices(
                old(self).next_index(),
                number_of_sides as int,
            ).len() * old(self).spec_index_size() <= u64::MAX,
        ensures
            number_of_sides < 3 ==> indices@.len() == 0 && *final(self) == *old(self),
            number_of_sides >= 3 ==> indices@ == padded_fan_indices(old(self).next_index(), number_of_sides as int),
            number_of_sides >= 3 ==> final(self).vertex_bytes() == old(self).vertex_bytes() + number_of_sides
                * old(self).spec_vertex_size(),
            number_of_sides >= 3 ==> final(self).index_bytes() == old(self).index_bytes() + indices@.len()
                * old(self).spec_index_size(),
            final(self).spec_vertex_size() == old(self).spec_vertex_size(),
            final(self).spec_index_size() == old(self).spec_index_size(),
    {
        if number_of_sides < 3 {
            return Vec::new();
        }
        let base = self.next_vertex_index();
        let indices = n_gon_indices(base, number_of_sides);
        self.record(number_of_sides as u64, indices.len() as u64);
        indices
    }

    /// Forgets everything queued, once it has been drawn.
    pub fn clear(&mut self)
        ensures
            final(self).vertex_bytes() == 0,
            final(self).index_bytes() == 0,
            final(self).spec_vertex_size() == old(self).spec_vertex_size(),
            final(self).spec_index_size() == old(self).spec_index_size(),
    {
        self.vertex_count = 0;
        self.index_count = 0;
    }

    /// The indices of a rectangle queued next: two triangles over its four vertices.
    pub fn rectangle_indices(&self) -> (indices: [u16; 6])
        requires
            self.spec_vertex_size() > 0,
            (self.vertex_bytes() / self.spec_vertex_size()) as int % 0x10000 + 3 <= u16::MAX,
        ensures
            ({
                let n = (self.vertex_bytes() / self.spec_vertex_size()) as int % 0x10000;
                indices@ == seq![n as u16, (n + 1) as u16, (n + 2) as u16, (n + 3) as u16, n as u16, (n + 2) as u16]
            }),
    {
        let num_verts = self.next_vertex_index();
        let indices = [num_verts, 1 + num_verts, 2 + num_verts, 3 + num_verts, num_verts, 2 + num_verts];
        assert(indices@ =~= seq![num_verts, (num_verts + 1) as u16, (num_verts + 2) as u16, (num_verts + 3) as u16, num_verts, (num_verts + 2) as u16]);
        indices
    }

    /// The indices of a triangle queued next: its three vertices, listed twice so
    /// that it takes as many indices as a rectangle.
    pub fn triangle_indices(&self) -> (indices: [u16; 6])
        requires
            self.spec_vertex_size() > 0,
            (self.vertex_bytes() / self.spec_vertex_size()) as int % 0x10000 + 2 <= u16::MAX,
        ensures
            ({
                let n = (self.vertex_bytes() / self.spec_vertex_size()) as int % 0x10000;
                indices@ == seq![n as u16, (n + 1) as u16, (n + 2) as u16, n as u16, (n + 1) as u16, (n + 2) as u16]
            }),
    {
        let num_verts = self.next_vertex_index();
        let indices = [num_verts, 1 + num_verts, 2 + num_verts, num_verts, 1 + num_verts, 2 + num_verts];
        assert(indices@ =~= seq![num_verts, (num_verts + 1) as u16, (num_verts + 2) as u16, num_verts, (num_verts + 1) as u16, (num_verts + 2) as u16]);
        indices
    }
}

/// The byte count of the vertices a line material has queued.
pub struct LineCounts {
    vertex_size: u64,
    vertex_count: u64,
}

impl LineCounts {
    /// The size of one line vertex in bytes.
    pub closed spec fn spec_vertex_size(self) -> u64 {
        self.vertex_size
    }

    /// The bytes of line vertices queued.
    pub closed spec fn vertex_bytes(self) -> u64 {
        self.vertex_count
    }

    /// Nothing queued, with the given size of a line vertex.
    pub fn new(vertex_size: u64) -> (c: Self)
        requires
            vertex_size > 0,
        ensures
            c.spec_vertex_size() == vertex_size,
            c.vertex_bytes() == 0,
    {
        Self { vertex_size, vertex_count: 0 }
    }

    /// The bytes of line vertices queued.
    pub fn vertex_count(&self) -> (n: u64)
        ensures
            n == self.vertex_bytes(),
    {
        self.vertex_count
    }

    /// The number of line vertices queued.
    pub fn get_vertex_count(&self) -> (n: u64)
        requires
            self.spec_vertex_size() > 0,
        ensures
            n == self.vertex_bytes() / self.spec_vertex_size(),
    {
        self.vertex_count / self.vertex_size
    }

    /// Records that a line, two vertices, was queued.
    pub fn record_line(&mut self)
        requires
            old(self).vertex_bytes() + 2 * old(self).spec_vertex_size() <= u64::MAX,
        ensures
            final(self).vertex_bytes() == old(self).vertex_bytes() + 2 * old(self).spec_vertex_size(),
            final(self).spec_vertex_size() == old(self).spec_vertex_size(),
    {
        self.vertex_count = self.vertex_count + 2 * self.vertex_size;
    }

    /// Forgets everything queued, once it has been drawn.
    pub fn clear(&mut self)
        ensures
            final(self).vertex_bytes() == 0,
            final(self).spec_vertex_size() == old(self).spec_vertex_size(),
    {
        self.vertex_count = 0;
    }
}

/// Each queued line adds two vertices to the count: after `k` lines from nothing
/// queued, the count is `2 * k`.
pub proof fn lemma_lines_counted(size: u64, k: nat)
    requires
        size > 0,
        2 * k * size <= u64::MAX,
    ensures
        (2 * k * size) / (size as int) == 2 * k,
{
    assert((2 * k * size) / (size as int) == 2 * k) by (nonlinear_arith)
        requires
            size > 0,
    ;
}

/// The choices a material is built from: a texture other than the white pixel and
/// a shader other than the default, each only if set. `T` is the type of the
/// material's uniform data; `Tx` and `Sh` are the texture and shader types.
pub struct MaterialBuilder<T, Tx, Sh> {
    texture_change: Option<ResourceId<Tx>>,
    shader_change: Option<ResourceId<Sh>>,
    _marker: PhantomData<T>,
}

impl<T, Tx, Sh> MaterialBuilder<T, Tx, Sh> {
    /// The texture set, if any.
    pub closed spec fn texture_change(self) -> Option<ResourceId<Tx>> {
        self.texture_change
    }

    /// The shader set, if any.
    pub closed spec fn shader_change(self) -> Option<ResourceId<Sh>> {
        self.shader_change
    }

    /// Creates a new MaterialBuilder, that contains no texture, custom shaders, or
    /// uniforms
    pub fn new() -> (b: Self)
        ensures
            b.texture_change() is None,
            b.shader_change() is None,
    {
        Self { texture_change: None, shader_change: None, _marker: PhantomData }
    }

    /// Adds a Texture to the Material
    pub fn add_texture(self, texture: ResourceId<Tx>) -> (b: Self)
        ensures
            b.texture_change() == Some(texture),
            b.shader_change() == self.shader_change(),
    {
        Self { texture_change: Some(texture), shader_change: self.shader_change, _marker: PhantomData }
    }

    /// Sets the shader for the Material
    pub fn set_shader(self, shader: ResourceId<Sh>) -> (b: Self)
        ensures
            b.texture_change() == self.texture_change(),
            b.shader_change() == Some(shader),
    {
        Self { texture_change: self.texture_change, shader_change: Some(shader), _marker: PhantomData }
    }

    /// This is used to set the type of data used for the materials Uniform ensuring
    /// type saftey across the GPU
    pub fn add_uniform_data<H>(self, _data: &UniformData<H>) -> (b: MaterialBuilder<H, Tx, Sh>)
        ensures
            b.texture_change() == self.texture_change(),
            b.shader_change() == self.shader_change(),
    {
        MaterialBuilder { texture_change: self.texture_change, shader_change: self.shader_change, _marker: PhantomData }
    }

    /// The texture and the shader a material built from this draws with: those
    /// set, else the given defaults.
    pub fn resolve(&self, default_texture: ResourceId<Tx>, default_shader: ResourceId<Sh>) -> (ids: (
        ResourceId<Tx>,
        ResourceId<Sh>,
    ))
        ensures
            ids.0 == (match self.texture_change() {
                Some(t) => t,
                None => default_texture,
            }),
            ids.1 == (match self.shader_change() {
                Some(s) => s,
                None => default_shader,
            }),
    {
        let texture = match self.texture_change {
            Some(t) => t,
            None => default_texture,
        };
        let shader = match self.shader_change {
            Some(s) => s,
            None => default_shader,
        };
        (texture, shader)
    }
}

impl<T, Tx, Sh> Default for MaterialBuilder<T, Tx, Sh> {
    fn default() -> (b: Self)
        ensures
            b.texture_change() is None,
            b.shader_change() is None,
    {
        Self::new()
    }
}

} // verus!
