//! The description of a shader's extra uniforms: optional uniform data and an
//! optional uniform texture, the bind group layout they need and the bindings they
//! take.
use std::marker::PhantomData;
use vstd::prelude::*;

use crate::texture::SamplerType;
use crate::vectors::Vec2;

verus! {

/// `UniformData` contains the byte data of a value of the shader's uniform type
/// `T`, laid out as the shader reads it.
#[derive(Debug)]
pub struct UniformData<T> {
    initial_data: Vec<u8>,
    _marker: PhantomData<T>,
}

impl<T> UniformData<T> {
    /// The bytes of the data.
    pub closed spec fn bytes(self) -> Seq<u8> {
        self.initial_data@
    }

    /// Uniform data made of the given bytes, which are the value laid out as the
    /// shader reads it.
    pub fn from_bytes(bytes: Vec<u8>) -> (d: Self)
        ensures
            d.bytes() == bytes@,
    {
        Self { initial_data: bytes, _marker: PhantomData }
    }

    /// The bytes of the data.
    pub fn as_bytes(&self) -> (b: &[u8])
        ensures
            b@ == self.bytes(),
    {
        self.initial_data.as_slice()
    }
}

fn copy_bytes(bytes: &Vec<u8>) -> (c: Vec<u8>)
    ensures
        c@ == bytes@,
{
    let mut c: Vec<u8> = Vec::new();
    let mut i: usize = 0;
    while i < bytes.len()
        invariant
            i <= bytes@.len(),
            c@ == bytes@.subrange(0, i as int),
        decreases bytes@.len() - i,
    {
        c.push(bytes[i]);
        assert(c@ =~= bytes@.subrange(0, i + 1));
        i = i + 1;
    }
    assert(bytes@.subrange(0, bytes@.len() as int) =~= bytes@);
    c
}

/// The sampling and size of a uniform texture: the sampler used when it is drawn
/// larger, the one used when it is drawn smaller, and its size in pixels.
pub type UniformTextureInfo = (SamplerType, SamplerType, Vec2<u32>);

/// `ShaderOptions` controlls the layout of your shader and wether or not you want
/// extra uniforms like a texture or a uniform buffer
#[derive(Debug)]
pub struct ShaderOptions<T> {
    uniform_data: Option<Vec<u8>>,
    uniform_texture: Option<UniformTextureInfo>,
    _marker: PhantomData<T>,
}

impl<T> ShaderOptions<T> {
    /// The bytes of the uniform data, if the shader has any.
    pub closed spec fn data(self) -> Option<Seq<u8>> {
        match self.uniform_data {
            Some(d) => Some(d@),
            None => None,
        }
    }

    /// The uniform texture's sampling and size, if the shader has one.
    pub closed spec fn texture(self) -> Option<UniformTextureInfo> {
        self.uniform_texture
    }

    /// Options with neither uniform data nor a uniform texture.
    pub fn empty() -> (o: Self)
        ensures
            o.data() is None,
            o.texture() is None,
    {
        Self { uniform_data: None, uniform_texture: None, _marker: PhantomData }
    }

    /// This will create a shader with a layout of:
    /// ```wgsl
    /// struct MousePos {
    ///     stuff: vec2<f32>,
    ///     _junk: vec2<f32>,
    /// }
    ///
    /// @group(2) @binding(0)
    /// var<uniform> mouse: MousePos;
    /// ```
    pub fn with_uniform_data(data: &UniformData<T>) -> (o: Self)
        ensures
            o.data() == Some(data.bytes()),
            o.texture() is None,
    {
        let starting_buffer = copy_bytes(&data.initial_data);
        Self { uniform_data: Some(starting_buffer), uniform_texture: None, _marker: PhantomData }
    }

    /// This will create a shader with a layout of:
    /// ```wgsl
    /// @group(2) @binding(0)
    /// var light_map: texture_2d<f32>;
    /// @group(2) @binding(1)
    /// var light_map_sampler: sampler;
    /// ```
    /// The texture is given by its mag and min samplers and its size.
    pub fn with_uniform_texture(mag: SamplerType, min: SamplerType, size: Vec2<u32>) -> (o: Self)
        ensures
            o.data() is None,
            o.texture() == Some((mag, min, size)),
    {
        Self { uniform_data: None, uniform_texture: Some((mag, min, size)), _marker: PhantomData }
    }

    /// This will create a shader with a layout of:
    /// ```wgsl
    /// @group(2) binding(0)
    /// var<uniform> value: SomeStruct;
    /// @group(2) @binding(1)
    /// var light_map: texture_2d<f32>;
    /// @group(2) @binding(2)
    /// var light_map_sampler: sampler;
    /// ```
    pub fn with_all(data: &UniformData<T>, mag: SamplerType, min: SamplerType, size: Vec2<u32>) -> (o: Self)
        ensures
            o.data() == Some(data.bytes()),
            o.texture() == Some((mag, min, size)),
    {
        let starting_buffer = copy_bytes(&data.initial_data);
        Self { uniform_data: Some(starting_buffer), uniform_texture: Some((mag, min, size)), _marker: PhantomData }
    }

    /// The bytes of the uniform data, if the shader has any.
    pub fn uniform_data(&self) -> (d: Option<&Vec<u8>>)
        ensures
            match d {
                Some(v) => self.data() == Some(v@),
                None => self.data() is None,
            },
    {
        self.uniform_data.as_ref()
    }

    /// The uniform texture's sampling and size, if the shader has one.
    pub fn uniform_texture(&self) -> (t: Option<UniformTextureInfo>)
        ensures
            t == self.texture(),
    {
        self.uniform_texture
    }

    /// Whether the shader has uniform data and whether it has a uniform texture.
    pub fn check_has(&self) -> (has: (bool, bool))
        ensures
            has == (self.data() is Some, self.texture() is Some),
    {
        (self.uniform_data.is_some(), self.uniform_texture.is_some())
    }
}

/// The bind group layout a shader's extra uniforms need.
#[derive(Clone, Copy, Debug, PartialEq, Eq, Structural)]
pub enum UniformLayout {
    /// Uniform data, then a texture and its sampler.
    TextureAndUniform,
    /// Uniform data only.
    Uniform,
    /// A texture and its sampler only.
    Texture,
}

/// The layout for a shader with or without uniform data and a uniform texture;
/// none when it has neither.
pub open spec fn spec_layout_for(has_buffer: bool, has_texture: bool) -> Option<UniformLayout> {
    if has_buffer && has_texture {
        Some(UniformLayout::TextureAndUniform)
    } else if has_buffer {
        Some(UniformLayout::Uniform)
    } else if has_texture {
        Some(UniformLayout::Texture)
    } else {
        None
    }
}

/// The layout for a shader with or without uniform data and a uniform texture;
/// none when it has neither.
pub fn layout_for(has_buffer: bool, has_texture: bool) -> (l: Option<UniformLayout>)
    ensures
        l == spec_layout_for(has_buffer, has_texture),
{
    match (has_buffer, has_texture) {
        (true, true) => Some(UniformLayout::TextureAndUniform),
        (true, false) => Some(UniformLayout::Uniform),
        (false, true) => Some(UniformLayout::Texture),
        (false, false) => None,
    }
}

/// What a binding of the uniforms' bind group holds.
#[derive(Clone, Copy, Debug, PartialEq, Eq, Structural)]
pub enum BindingKind {
    UniformBuffer,
    TextureView,
    Sampler,
}

/// The bindings of the uniforms' bind group, in binding order: the uniform buffer
/// if there is one, then the texture view and the sampler if there is a texture.
/// Each binding's number is its place in this list.
pub open spec fn spec_bindings(has_buffer: bool, has_texture: bool) -> Seq<BindingKind> {
    (if has_buffer {
        seq![BindingKind::UniformBuffer]
    } else {
        Seq::empty()
    }) + (if has_texture {
        seq![BindingKind::TextureView, BindingKind::Sampler]
    } else {
        Seq::empty()
    })
}

/// The bindings of the uniforms' bind group, in binding order, each with its number.
pub fn make_entries(has_buffer: bool, has_texture: bool) -> (entries: Vec<(u32, BindingKind)>)
    ensures
        entries@.len() == spec_bindings(has_buffer, has_texture).len(),
        forall|i: int|
            0 <= i < entries@.len() ==> #[trigger] entries@[i] == (i as u32, spec_bindings(has_buffer, has_texture)[i]),
{
    let mut entries: Vec<(u32, BindingKind)> = Vec::new();
    if has_buffer {
        entries.push((0, BindingKind::UniformBuffer));
    }
    if has_texture {
        let next = entries.len() as u32;
        entries.push((next, BindingKind::TextureView));
        entries.push((next + 1, BindingKind::Sampler));
    }
    entries
}

/// Uniform data and a uniform texture each take their own bindings, and the layout
/// has a place for every binding made.
pub proof fn lemma_layout_matches_bindings(has_buffer: bool, has_texture: bool)
    ensures
        spec_layout_for(has_buffer, has_texture) is None <==> spec_bindings(has_buffer, has_texture).len() == 0,
        spec_bindings(has_buffer, has_texture).len() == (if has_buffer { 1int } else { 0 }) + (if has_texture {
            2int
        } else {
            0
        }),
{
}

/// The ways setting a shader's uniforms can fail.
#[derive(Clone, Copy, Debug, PartialEq, Eq, Structural, PartialOrd, Ord, Hash)]
pub enum UniformError {
    NotLoadedYet,
    DoesntHaveUniformBuffer,
    DoesntHaveUniformTexture,
}

/// The message of each error.
pub open spec fn uniform_error_message(e: UniformError) -> Seq<char> {
    match e {
        UniformError::NotLoadedYet => "The shader has not loaded yet please try again later"@,
        UniformError::DoesntHaveUniformBuffer => "The shader does not have a uniform buffer"@,
        UniformError::DoesntHaveUniformTexture => "The shader does not have a unform texture"@,
    }
}

impl UniformError {
    /// The message that describes the error.
    pub fn message(&self) -> (m: &'static str)
        ensures
            m@ == uniform_error_message(*self),
    {
        match self {
            Self::NotLoadedYet => "The shader has not loaded yet please try again later",
            Self::DoesntHaveUniformBuffer => "The shader does not have a uniform buffer",
            Self::DoesntHaveUniformTexture => "The shader does not have a unform texture",
        }
    }
}

} // verus!
