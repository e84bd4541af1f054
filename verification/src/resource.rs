//! Bookkeeping for the loading of assets and their storage under a [`ResourceId`].
//!
//! All Resources have two types of loading a `Blocking` method and a `Background`
//! method. On native platforms (Mac, Windows, Linux) The blocking method will
//! just read from the file system and your resource will be available
//! immediately. Background loads resources on a diffrent thread and it will be
//! done when its done. On Wasm all things are loaded asynchronously so the
//! Blocking method is faked by not updating or redrawing the game untill
//! all blocking resources are loaded. There are no platform diffrences
//! for background loading.
//!
//! The file reading itself happens outside this module; here are the counts of
//! loads under way, the records a finished load produces, and the maps from ids to
//! loaded resources.
use std::collections::HashMap;
use std::collections::hash_map::Entry;
use std::marker::PhantomData;
use vstd::prelude::*;

use crate::shader::ShaderOptions;
use crate::text::Font;
use crate::texture::SamplerType;

verus! {

broadcast use vstd::std_specs::hash::group_hash_axioms;

/// This enum is used to control how resources are loaded.
/// Background loading will load the resource on another thread
/// and the resource will be ready when its ready. Blocking Loads
/// on native platforms will read directly from the filesystem and
/// the resource will be availble immediately. However on WASM
/// the blocking behavoir is faked by pausing the game loop
/// untill all blocking resources are done loading.
#[derive(Debug, Clone, Copy, PartialEq, Eq, Structural, PartialOrd, Ord)]
pub enum LoadingOp {
    Background,
    Blocking,
}

/// An Id for a specific type of resource used interally in the engine. Ids are
/// never zero.
#[derive(Debug, PartialOrd, Ord)]
pub struct ResourceId<T>(u64, PhantomData<T>);

impl<T> ResourceId<T> {
    #[verifier::type_invariant]
    spec fn nonzero(self) -> bool {
        self.0 != 0
    }

    /// The number of the id.
    pub closed spec fn spec_id(self) -> u64 {
        self.0
    }

    /// The id with the given number, which must not be zero.
    pub fn from_number(number: u64) -> (id: Self)
        requires
            number != 0,
        ensures
            id.spec_id() == number,
    {
        Self(number, PhantomData)
    }

    /// The number of the id, never zero.
    pub fn get_id(&self) -> (n: u64)
        ensures
            n == self.spec_id(),
            n != 0,
    {
        proof {
            use_type_invariant(self);
        }
        self.0
    }
}

impl<T> Clone for ResourceId<T> {
    fn clone(&self) -> (c: Self)
        ensures
            c.spec_id() == self.spec_id(),
    {
        *self
    }
}

impl<T> Copy for ResourceId<T> {

}

impl<T> PartialEq for ResourceId<T> {
    fn eq(&self, other: &Self) -> (r: bool) {
        self.0 == other.0
    }
}

impl<T> vstd::std_specs::cmp::PartialEqSpecImpl for ResourceId<T> {
    open spec fn obeys_eq_spec() -> bool {
        true
    }

    open spec fn eq_spec(&self, other: &Self) -> bool {
        self.spec_id() == other.spec_id()
    }
}

impl<T> Eq for ResourceId<T> {

}

/// Hands out resource ids: 1, 2, 3 and so on. Once every `u64` has been handed out
/// the count wraps to zero, which is no id, and no more can be handed out.
pub struct IdGenerator {
    next: u64,
}

impl IdGenerator {
    /// The number the next id gets.
    pub closed spec fn spec_next(self) -> u64 {
        self.next
    }

    /// A generator whose first id is 1.
    pub fn new() -> (g: Self)
        ensures
            g.spec_next() == 1,
    {
        Self { next: 1 }
    }

    /// Whether another id can be handed out.
    pub fn can_generate(&self) -> (ok: bool)
        ensures
            ok == (self.spec_next() != 0),
    {
        self.next != 0
    }

    /// Hands out the next id; the count moves on by one, wrapping after the largest
    /// `u64`.
    pub fn generate_id<T>(&mut self) -> (id: ResourceId<T>)
        requires
            old(self).spec_next() != 0,
        ensures
            id.spec_id() == old(self).spec_next(),
            final(self).spec_next() == (old(self).spec_next() as int + 1) % 0x1_0000_0000_0000_0000,
    {
        let id = self.next;
        self.next = if self.next == u64::MAX {
            0
        } else {
            self.next + 1
        };
        ResourceId::from_number(id)
    }
}

/// The ids that `k` calls of `generate_id` hand out from a generator whose next
/// number is `next`, as long as the count does not wrap.
pub open spec fn ids_handed_out(next: u64, k: nat) -> Seq<int> {
    Seq::new(k, |i: int| next + i)
}

/// Until the count wraps, ids are handed out in increasing order, so none is zero
/// and none is handed out twice.
pub proof fn lemma_ids_unique(next: u64, k: nat)
    requires
        next >= 1,
        next + k <= u64::MAX + 1,
    ensures
        forall|i: int, j: int|
            0 <= i < j < k ==> #[trigger] ids_handed_out(next, k)[i] < #[trigger] ids_handed_out(next, k)[j],
        forall|i: int| 0 <= i < k ==> 1 <= #[trigger] ids_handed_out(next, k)[i] <= u64::MAX,
{
}

/// The number of loads of each kind that are under way.
pub struct Loader {
    blocked_loading: usize,
    background_loading: usize,
}

impl Loader {
    /// The number of blocking loads under way.
    pub closed spec fn blocked(self) -> nat {
        self.blocked_loading as nat
    }

    /// The number of background loads under way.
    pub closed spec fn background(self) -> nat {
        self.background_loading as nat
    }

    /// The number of loads of the given kind under way.
    pub open spec fn count(self, op: LoadingOp) -> nat {
        match op {
            LoadingOp::Background => self.background(),
            LoadingOp::Blocking => self.blocked(),
        }
    }

    /// The same counts, but `n` loads of the given kind under way.
    pub closed spec fn with_count(self, op: LoadingOp, n: nat) -> Loader {
        match op {
            LoadingOp::Background => Loader { background_loading: n as usize, ..self },
            LoadingOp::Blocking => Loader { blocked_loading: n as usize, ..self },
        }
    }

    /// A loader with no loads under way.
    pub fn new() -> (l: Self)
        ensures
            l.blocked() == 0,
            l.background() == 0,
    {
        Self { background_loading: 0, blocked_loading: 0 }
    }

    /// Records that a load was started in the given way.
    pub fn load(&mut self, loading_op: LoadingOp)
        requires
            old(self).count(loading_op) < usize::MAX,
        ensures
            final(self).count(loading_op) == old(self).count(loading_op) + 1,
            *final(self) == old(self).with_count(loading_op, old(self).count(loading_op) + 1),
            loading_op == LoadingOp::Background ==> final(self).blocked() == old(self).blocked(),
            loading_op == LoadingOp::Blocking ==> final(self).background() == old(self).background(),
    {
        match loading_op {
            LoadingOp::Background => self.background_load(),
            LoadingOp::Blocking => self.blocking_load(),
        }
    }

    /// Records that a blocking load was started.
    pub fn blocking_load(&mut self)
        requires
            old(self).blocked() < usize::MAX,
        ensures
            final(self).blocked() == old(self).blocked() + 1,
            final(self).background() == old(self).background(),
            *final(self) == old(self).with_count(LoadingOp::Blocking, old(self).blocked() + 1),
    {
        self.blocked_loading = self.blocked_loading + 1;
    }

    /// Records that a background load was started.
    pub fn background_load(&mut self)
        requires
            old(self).background() < usize::MAX,
        ensures
            final(self).background() == old(self).background() + 1,
            final(self).blocked() == old(self).blocked(),
            *final(self) == old(self).with_count(LoadingOp::Background, old(self).background() + 1),
    {
        self.background_loading = self.background_loading + 1;
    }

    /// Records that a load of the given kind finished; one must be under way.
    pub fn remove_item_loading(&mut self, loading_op: LoadingOp)
        requires
            old(self).count(loading_op) > 0,
        ensures
            final(self).count(loading_op) == old(self).count(loading_op) - 1,
            *final(self) == old(self).with_count(loading_op, (old(self).count(loading_op) - 1) as nat),
            loading_op == LoadingOp::Background ==> final(self).blocked() == old(self).blocked(),
            loading_op == LoadingOp::Blocking ==> final(self).background() == old(self).background(),
    {
        match loading_op {
            LoadingOp::Background => self.background_loading = self.background_loading - 1,
            LoadingOp::Blocking => self.blocked_loading = self.blocked_loading - 1,
        }
    }

    /// The number of loads under way.
    pub fn get_loading_resources(&self) -> (n: usize)
        requires
            self.blocked() + self.background() <= usize::MAX,
        ensures
            n == self.blocked() + self.background(),
    {
        self.background_loading + self.blocked_loading
    }

    /// The number of loads of the given kind under way.
    pub fn loading_count(&self, loading_op: LoadingOp) -> (n: usize)
        ensures
            n == self.count(loading_op),
    {
        match loading_op {
            LoadingOp::Background => self.background_loading,
            LoadingOp::Blocking => self.blocked_loading,
        }
    }

    /// Whether a blocking load is under way.
    pub fn is_blocked(&self) -> (b: bool)
        ensures
            b == (self.blocked() > 0),
    {
        self.blocked_loading > 0
    }
}

/// Starting a load and then finishing it gives back the loader as it was:
/// [`Loader::load`] leaves it `with_count` one more of the load's kind, and
/// [`Loader::remove_item_loading`] `with_count` one less, and the other kind's count
/// is untouched by both.
pub proof fn lemma_load_then_finish(l: Loader, op: LoadingOp)
    requires
        l.count(op) < usize::MAX,
    ensures
        l.with_count(op, l.count(op) + 1).count(op) == l.count(op) + 1,
        l.with_count(op, l.count(op) + 1).with_count(
            op,
            (l.with_count(op, l.count(op) + 1).count(op) - 1) as nat,
        ) == l,
{
}

/// What kind of resource a load produces.
#[derive(Debug)]
pub enum ResourceType<O> {
    Image(SamplerType, SamplerType),
    Shader(O),
    Bytes,
    Font,
}

impl<T> PartialEq for ResourceType<ShaderOptions<T>> {
    /// Two resource types are the same kind with the same samplers; two shaders
    /// count as the same when both have, or both lack, uniform data and a uniform
    /// texture.
    fn eq(&self, other: &Self) -> (r: bool) {
        match (self, other) {
            (ResourceType::Bytes, ResourceType::Bytes) => true,
            (ResourceType::Font, ResourceType::Font) => true,
            (ResourceType::Shader(option_1), ResourceType::Shader(option_2)) => {
                let has_1 = option_1.check_has();
                let has_2 = option_2.check_has();
                has_1.0 == has_2.0 && has_1.1 == has_2.1
            },
            (ResourceType::Image(s1, s2), ResourceType::Image(s3, s4)) => *s1 == *s3 && *s2 == *s4,
            _ => false,
        }
    }
}

impl<T> vstd::std_specs::cmp::PartialEqSpecImpl for ResourceType<ShaderOptions<T>> {
    open spec fn obeys_eq_spec() -> bool {
        true
    }

    open spec fn eq_spec(&self, other: &Self) -> bool {
        match (*self, *other) {
            (ResourceType::Bytes, ResourceType::Bytes) => true,
            (ResourceType::Font, ResourceType::Font) => true,
            (ResourceType::Shader(o1), ResourceType::Shader(o2)) => (o1.data() is Some) == (o2.data() is Some)
                && (o1.texture() is Some) == (o2.texture() is Some),
            (ResourceType::Image(s1, s2), ResourceType::Image(s3, s4)) => s1 == s3 && s2 == s4,
            _ => false,
        }
    }
}

/// A load that finished: the bytes read from `path`.
#[derive(Debug)]
pub struct Resource<P, O> {
    pub path: P,
    pub data: Vec<u8>,
    pub id: u64,
    pub resource_type: ResourceType<O>,
    pub loading_op: LoadingOp,
}

/// A load that failed with the error `error`.
#[derive(Debug)]
pub struct ResourceError<P, O, E> {
    pub error: E,
    pub path: P,
    pub id: u64,
    pub resource_type: ResourceType<O>,
    pub loading_op: LoadingOp,
}

impl<P, O> Resource<P, O> {
    /// The record of a finished load of `path`, given what reading it gave.
    pub fn from_result<E>(
        result: Result<Vec<u8>, E>,
        path: P,
        id: u64,
        resource_type: ResourceType<O>,
        loading_op: LoadingOp,
    ) -> (r: Result<Self, ResourceError<P, O, E>>)
        ensures
            match result {
                Ok(data) => r == Ok::<Self, ResourceError<P, O, E>>(
                    Resource { path, data, id, resource_type, loading_op },
                ),
                Err(error) => r == Err::<Self, ResourceError<P, O, E>>(
                    ResourceError { error, path, id, resource_type, loading_op },
                ),
            },
    {
        match result {
            Ok(data) => Ok(Self { path, data, id, resource_type, loading_op }),
            Err(e) => Err(ResourceError { error: e, path, id, resource_type, loading_op }),
        }
    }
}

/// A load to be started: what to read, what it is for and how to load it.
#[derive(Debug)]
pub struct InProgressResource<P, O> {
    pub path: P,
    pub id: u64,
    pub resource_type: ResourceType<O>,
    pub loading_op: LoadingOp,
}

impl<P, O> InProgressResource<P, O> {
    /// A load of `path` for the resource `id`.
    pub fn new(path: P, id: u64, resource_type: ResourceType<O>, loading_op: LoadingOp) -> (r: Self)
        ensures
            r == (InProgressResource { path, id, resource_type, loading_op }),
    {
        Self { path, id, resource_type, loading_op }
    }
}

/// The loaded resources of each kind, by id: byte resources, textures of type
/// `Tx`, shaders of type `Sh`, and fonts.
pub struct ResourceManager<Tx, Sh> {
    btye_resources: HashMap<u64, Vec<u8>>,
    bindgroup_resources: HashMap<u64, Tx>,
    pipeline_resource: HashMap<u64, Sh>,
    fonts: HashMap<u64, Font>,
}

impl<Tx, Sh> ResourceManager<Tx, Sh> {
    /// The byte resources by id.
    pub closed spec fn bytes(self) -> Map<u64, Vec<u8>> {
        self.btye_resources@
    }

    /// The textures by id.
    pub closed spec fn textures(self) -> Map<u64, Tx> {
        self.bindgroup_resources@
    }

    /// The shaders by id.
    pub closed spec fn pipelines(self) -> Map<u64, Sh> {
        self.pipeline_resource@
    }

    /// The fonts by id.
    pub closed spec fn fonts(self) -> Map<u64, Font> {
        self.fonts@
    }

    /// A manager holding nothing.
    pub fn new() -> (m: Self)
        ensures
            m.bytes() == Map::<u64, Vec<u8>>::empty(),
            m.textures() == Map::<u64, Tx>::empty(),
            m.pipelines() == Map::<u64, Sh>::empty(),
            m.fonts() == Map::<u64, Font>::empty(),
    {
        Self {
            btye_resources: HashMap::new(),
            bindgroup_resources: HashMap::new(),
            pipeline_resource: HashMap::new(),
            fonts: HashMap::new(),
        }
    }

    /// Stores a byte resource under the id, replacing what it held.
    pub fn insert_bytes(&mut self, key: ResourceId<Vec<u8>>, data: Vec<u8>)
        ensures
            final(self).bytes() == old(self).bytes().insert(key.spec_id(), data),
            final(self).textures() == old(self).textures(),
            final(self).pipelines() == old(self).pipelines(),
            final(self).fonts() == old(self).fonts(),
    {
        self.btye_resources.insert(key.get_id(), data);
    }

    /// Stores a texture under the id, replacing what it held.
    pub fn insert_texture(&mut self, key: ResourceId<Tx>, data: Tx)
        ensures
            final(self).textures() == old(self).textures().insert(key.spec_id(), data),
            final(self).bytes() == old(self).bytes(),
            final(self).pipelines() == old(self).pipelines(),
            final(self).fonts() == old(self).fonts(),
    {
        self.bindgroup_resources.insert(key.get_id(), data);
    }

    /// Stores the texture made from a loaded image under the id or, where the image
    /// could not be made into a texture, the stand-in texture. Returns whether the
    /// texture was made.
    pub fn insert_texture_or_default<E>(&mut self, key: ResourceId<Tx>, made: Result<Tx, E>, default: Tx) -> (ok: bool)
        ensures
            ok == made is Ok,
            final(self).textures() == old(self).textures().insert(
                key.spec_id(),
                match made {
                    Ok(t) => t,
                    Err(_) => default,
                },
            ),
            final(self).bytes() == old(self).bytes(),
            final(self).pipelines() == old(self).pipelines(),
            final(self).fonts() == old(self).fonts(),
    {
        match made {
            Ok(texture) => {
                self.insert_texture(key, texture);
                true
            },
            Err(_) => {
                self.insert_texture(key, default);
                false
            },
        }
    }

    /// Stores the shader made from loaded source under the id or, where the source
    /// could not be made into a shader, the stand-in shader. Returns whether the
    /// shader was made.
    pub fn insert_pipeline_or_default<E>(&mut self, key: ResourceId<Sh>, made: Result<Sh, E>, default: Sh) -> (ok: bool)
        ensures
            ok == made is Ok,
            final(self).pipelines() == old(self).pipelines().insert(
                key.spec_id(),
                match made {
                    Ok(s) => s,
                    Err(_) => default,
                },
            ),
            final(self).bytes() == old(self).bytes(),
            final(self).textures() == old(self).textures(),
            final(self).fonts() == old(self).fonts(),
    {
        match made {
            Ok(shader) => {
                self.insert_pipeline(key, shader);
                true
            },
            Err(_) => {
                self.insert_pipeline(key, default);
                false
            },
        }
    }

    /// Stores a shader under the id, replacing what it held.
    pub fn insert_pipeline(&mut self, key: ResourceId<Sh>, data: Sh)
        ensures
            final(self).pipelines() == old(self).pipelines().insert(key.spec_id(), data),
            final(self).bytes() == old(self).bytes(),
            final(self).textures() == old(self).textures(),
            final(self).fonts() == old(self).fonts(),
    {
        self.pipeline_resource.insert(key.get_id(), data);
    }

    /// Stores a font under the id, replacing what it held.
    pub fn insert_font(&mut self, key: ResourceId<Font>, data: Font)
        ensures
            final(self).fonts() == old(self).fonts().insert(key.spec_id(), data),
            final(self).bytes() == old(self).bytes(),
            final(self).textures() == old(self).textures(),
            final(self).pipelines() == old(self).pipelines(),
    {
        self.fonts.insert(key.get_id(), data);
    }

    /// The byte resource stored under the id, if it is loaded.
    pub fn get_byte_resource(&self, key: &ResourceId<Vec<u8>>) -> (r: Option<&Vec<u8>>)
        ensures
            match r {
                Some(v) => self.bytes().contains_key(key.spec_id()) && *v == self.bytes()[key.spec_id()],
                None => !self.bytes().contains_key(key.spec_id()),
            },
    {
        self.btye_resources.get(&key.get_id())
    }

    /// The texture stored under the id, if it is loaded.
    pub fn get_texture(&self, key: &ResourceId<Tx>) -> (r: Option<&Tx>)
        ensures
            match r {
                Some(v) => self.textures().contains_key(key.spec_id()) && *v == self.textures()[key.spec_id()],
                None => !self.textures().contains_key(key.spec_id()),
            },
    {
        self.bindgroup_resources.get(&key.get_id())
    }

    /// The shader stored under the id, if it is loaded.
    pub fn get_pipeline(&self, key: &ResourceId<Sh>) -> (r: Option<&Sh>)
        ensures
            match r {
                Some(v) => self.pipelines().contains_key(key.spec_id()) && *v == self.pipelines()[key.spec_id()],
                None => !self.pipelines().contains_key(key.spec_id()),
            },
    {
        self.pipeline_resource.get(&key.get_id())
    }

    /// The font stored under the id, if it is loaded.
    pub fn get_font(&self, key: &ResourceId<Font>) -> (r: Option<&Font>)
        ensures
            match r {
                Some(v) => self.fonts().contains_key(key.spec_id()) && *v == self.fonts()[key.spec_id()],
                None => !self.fonts().contains_key(key.spec_id()),
            },
    {
        self.fonts.get(&key.get_id())
    }

    /// Mutable access to the shader stored under the id, if it is loaded.
    pub fn get_mut_shader(&mut self, key: &ResourceId<Sh>) -> (r: Option<&mut Sh>)
        ensures
            match r {
                Some(v) => old(self).pipelines().contains_key(key.spec_id()) && *v == old(self).pipelines()[key.spec_id()]
                    && final(self).pipelines() == old(self).pipelines().insert(key.spec_id(), *final(v)),
                None => !old(self).pipelines().contains_key(key.spec_id()) && final(self).pipelines() == old(
                    self,
                ).pipelines(),
            },
            final(self).bytes() == old(self).bytes(),
            final(self).textures() == old(self).textures(),
            final(self).fonts() == old(self).fonts(),
    {
        match self.pipeline_resource.entry(key.get_id()) {
            Entry::Occupied(e) => Some(e.into_mut()),
            Entry::Vacant(_) => None,
        }
    }
}

/// What is stored under an id is what fetching that id gives back, and storing it
/// leaves what every other id holds as it was. `before` and `after` are the map of
/// one kind of resource (`bytes`, `textures`, `pipelines` or `fonts`) before and
/// after an `insert_*` of `data` under `key`.
pub proof fn lemma_fetch_after_store<V>(before: Map<u64, V>, after: Map<u64, V>, key: u64, data: V, other: u64)
    requires
        after == before.insert(key, data),
        other != key,
    ensures
        after.contains_key(key),
        after[key] == data,
        after.contains_key(other) == before.contains_key(other),
        before.contains_key(other) ==> after[other] == before[other],
{
}

} // verus!
