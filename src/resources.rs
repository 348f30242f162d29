//! The resource manager: descriptor-set layouts and sets per shader
//! identifier, graphics pipelines per pipeline identifier, and the capacity of
//! the one shared descriptor pool. Handles are raw 64-bit API handles.
use vstd::prelude::*;
use crate::registry::Registry;

verus! {

/// The descriptor resources of one shader.
pub struct ShaderResources {
    pub descriptor_layouts: Vec<u64>,
    pub descriptor_sets: Vec<u64>,
}

impl ShaderResources {
    /// A record with no layouts and no sets.
    pub fn new() -> (r: ShaderResources)
        ensures
            r.descriptor_layouts@ == Seq::<u64>::empty(),
            r.descriptor_sets@ == Seq::<u64>::empty(),
    {
        ShaderResources { descriptor_layouts: Vec::new(), descriptor_sets: Vec::new() }
    }
}

/// A realized graphics pipeline and the objects it was built from.
pub struct GraphicsPipeline {
    pub pipeline: u64,
    pub pipeline_layout: u64,
    pub shader_modules: Vec<u64>,
}

/// Why a resource operation was refused; nothing changed.
#[derive(Clone, Copy, Debug, PartialEq, Eq, Structural)]
pub enum ResourceError {
    /// No shader resources are registered under the identifier.
    UnknownShader,
    /// No pipeline is registered under the identifier.
    UnknownPipeline,
    /// The shared descriptor pool has too few sets left.
    PoolExhausted,
    /// The number of sets handed back differs from the number of layouts.
    SetCountMismatch,
}

fn copy_handles(v: &Vec<u64>) -> (r: Vec<u64>)
    ensures
        r@ == v@,
{
    let mut r: Vec<u64> = Vec::with_capacity(v.len());
    let mut i: usize = 0;
    while i < v.len()
        invariant
            i <= v@.len(),
            r@ == v@.subrange(0, i as int),
        decreases v@.len() - i,
    {
        r.push(v[i]);
        proof {
            assert(r@ =~= v@.subrange(0, i + 1));
        }
        i = i + 1;
    }
    proof {
        assert(r@ =~= v@);
    }
    r
}

/// The kinds of object the manager owns.
#[derive(Clone, Copy, Debug, PartialEq, Eq, Structural)]
pub enum ObjectKind {
    Pipeline,
    PipelineLayout,
    ShaderModule,
    DescriptorSetLayout,
    DescriptorPool,
}

/// One object to destroy.
#[derive(Clone, Copy, Debug, PartialEq, Eq, Structural)]
pub struct OwnedObject {
    pub kind: ObjectKind,
    pub handle: u64,
}

/// The handles, each labelled with `kind`.
pub open spec fn tagged(kind: ObjectKind, handles: Seq<u64>) -> Seq<OwnedObject> {
    handles.map_values(|h: u64| OwnedObject { kind, handle: h })
}

/// The pipelines' handles, then their layouts, then their shader modules.
pub open spec fn pipeline_teardown(pipelines: Seq<GraphicsPipeline>) -> Seq<OwnedObject> {
    pipelines.map_values(|p: GraphicsPipeline| OwnedObject { kind: ObjectKind::Pipeline, handle: p.pipeline })
        + pipelines.map_values(|p: GraphicsPipeline| OwnedObject { kind: ObjectKind::PipelineLayout, handle: p.pipeline_layout })
        + pipelines.map_values(|p: GraphicsPipeline| tagged(ObjectKind::ShaderModule, p.shader_modules@)).flatten()
}

/// The descriptor-set layouts of every shader record.
pub open spec fn layout_teardown(shaders: Seq<ShaderResources>) -> Seq<OwnedObject> {
    shaders.map_values(|s: ShaderResources| tagged(ObjectKind::DescriptorSetLayout, s.descriptor_layouts@)).flatten()
}

fn push_tagged(out: &mut Vec<OwnedObject>, kind: ObjectKind, handles: &Vec<u64>)
    ensures
        final(out)@ == old(out)@ + tagged(kind, handles@),
{
    let ghost start = out@;
    let mut j: usize = 0;
    while j < handles.len()
        invariant
            j <= handles@.len(),
            out@ == start + tagged(kind, handles@.subrange(0, j as int)),
        decreases handles@.len() - j,
    {
        out.push(OwnedObject { kind, handle: handles[j] });
        proof {
            assert(tagged(kind, handles@.subrange(0, j + 1)) =~= tagged(kind, handles@.subrange(0, j as int)).push(
                OwnedObject { kind, handle: handles@[j as int] },
            ));
        }
        j = j + 1;
    }
    proof {
        assert(handles@.subrange(0, handles@.len() as int) =~= handles@);
    }
}

/// Owns the bookkeeping of every descriptor and pipeline object.
pub struct VulkanResources {
    descriptor_pool: u64,
    max_sets: u32,
    sets_allocated: u32,
    shader_resources: Registry<ShaderResources>,
    pipelines: Registry<GraphicsPipeline>,
}

impl VulkanResources {
    pub closed spec fn wf(&self) -> bool {
        &&& self.shader_resources.wf()
        &&& self.pipelines.wf()
        &&& self.sets_allocated <= self.max_sets
    }

    /// The shader records by identifier.
    pub closed spec fn shaders(&self) -> Map<Seq<char>, ShaderResources> {
        self.shader_resources@
    }

    /// The pipelines by identifier.
    pub closed spec fn pipeline_map(&self) -> Map<Seq<char>, GraphicsPipeline> {
        self.pipelines@
    }

    /// The pipelines in registration order.
    pub closed spec fn pipeline_entries(&self) -> Seq<GraphicsPipeline> {
        self.pipelines.entries()
    }

    /// The shader records in registration order.
    pub closed spec fn shader_entries(&self) -> Seq<ShaderResources> {
        self.shader_resources.entries()
    }

    /// The identifiers of the pipelines, in the order of `pipeline_entries`.
    pub closed spec fn pipeline_ids(&self) -> Seq<Seq<char>> {
        self.pipelines.ids()
    }

    /// The identifiers of the shader records, in the order of `shader_entries`.
    pub closed spec fn shader_ids(&self) -> Seq<Seq<char>> {
        self.shader_resources.ids()
    }

    /// The ordered entries hold exactly the records of the maps.
    pub proof fn lemma_entries(&self)
        requires
            self.wf(),
        ensures
            self.pipeline_ids().len() == self.pipeline_entries().len(),
            forall|i: int| 0 <= i < self.pipeline_ids().len() ==> #[trigger] self.pipeline_map().contains_key(self.pipeline_ids()[i])
                && self.pipeline_map()[self.pipeline_ids()[i]] == self.pipeline_entries()[i],
            forall|k: Seq<char>| #[trigger] self.pipeline_map().contains_key(k) <==> self.pipeline_ids().contains(k),
            self.shader_ids().len() == self.shader_entries().len(),
            forall|i: int| 0 <= i < self.shader_ids().len() ==> #[trigger] self.shaders().contains_key(self.shader_ids()[i])
                && self.shaders()[self.shader_ids()[i]] == self.shader_entries()[i],
            forall|k: Seq<char>| #[trigger] self.shaders().contains_key(k) <==> self.shader_ids().contains(k),
    {
        self.pipelines.lemma_entries();
        self.shader_resources.lemma_entries();
    }

    pub closed spec fn pool(&self) -> u64 {
        self.descriptor_pool
    }

    pub closed spec fn capacity(&self) -> nat {
        self.max_sets as nat
    }

    /// Sets allocated from the pool so far.
    pub closed spec fn allocated(&self) -> nat {
        self.sets_allocated as nat
    }

    /// A manager over a descriptor pool created for `max_sets` sets.
    pub fn new(descriptor_pool: u64, max_sets: u32) -> (r: VulkanResources)
        ensures
            r.wf(),
            r.shaders() == Map::<Seq<char>, ShaderResources>::empty(),
            r.pipeline_map() == Map::<Seq<char>, GraphicsPipeline>::empty(),
            r.pool() == descriptor_pool,
            r.capacity() == max_sets,
            r.allocated() == 0,
    {
        VulkanResources {
            descriptor_pool,
            max_sets,
            sets_allocated: 0,
            shader_resources: Registry::new(),
            pipelines: Registry::new(),
        }
    }

    /// The shared descriptor pool.
    pub fn descriptor_pool(&self) -> (r: u64)
        ensures
            r == self.pool(),
    {
        self.descriptor_pool
    }

    /// Registers an empty record under `shader_id`, returning the record it
    /// replaces so that its objects can be destroyed.
    pub fn create_shader_resources(&mut self, shader_id: &str) -> (r: Option<ShaderResources>)
        requires
            old(self).wf(),
        ensures
            final(self).wf(),
            final(self).shaders().contains_key(shader_id@),
            final(self).shaders()[shader_id@].descriptor_layouts@ == Seq::<u64>::empty(),
            final(self).shaders()[shader_id@].descriptor_sets@ == Seq::<u64>::empty(),
            forall|k: Seq<char>| k != shader_id@ ==> (#[trigger] final(self).shaders().contains_key(k)
                == old(self).shaders().contains_key(k)) && (final(self).shaders().contains_key(k)
                ==> final(self).shaders()[k] == old(self).shaders()[k]),
            r matches Some(v) ==> old(self).shaders().contains_key(shader_id@) && v == old(self).shaders()[shader_id@],
            r is None ==> !old(self).shaders().contains_key(shader_id@),
            final(self).pipeline_map() == old(self).pipeline_map(),
            final(self).pool() == old(self).pool(),
            final(self).capacity() == old(self).capacity(),
            final(self).allocated() == old(self).allocated(),
    {
        self.shader_resources.insert(shader_id, ShaderResources::new())
    }

    /// Whether shader resources are registered under `shader_id`.
    pub fn has_shader(&self, shader_id: &str) -> (r: bool)
        requires
            self.wf(),
        ensures
            r == self.shaders().contains_key(shader_id@),
    {
        self.shader_resources.contains(shader_id)
    }

    /// Appends a descriptor-set layout to the layouts of `shader_id`.
    pub fn new_descriptor_layout(&mut self, shader_id: &str, layout: u64) -> (r: Result<(), ResourceError>)
        requires
            old(self).wf(),
        ensures
            final(self).wf(),
            r is Err <==> !old(self).shaders().contains_key(shader_id@),
            r is Err ==> r == Err::<(), ResourceError>(ResourceError::UnknownShader),
            r is Err ==> final(self).shaders() == old(self).shaders(),
            r is Ok ==> final(self).shaders().dom() == old(self).shaders().dom(),
            r is Ok ==> final(self).shaders()[shader_id@].descriptor_layouts@
                == old(self).shaders()[shader_id@].descriptor_layouts@.push(layout),
            r is Ok ==> final(self).shaders()[shader_id@].descriptor_sets@
                == old(self).shaders()[shader_id@].descriptor_sets@,
            forall|k: Seq<char>| k != shader_id@ && old(self).shaders().contains_key(k)
                ==> #[trigger] final(self).shaders()[k] == old(self).shaders()[k],
            final(self).pipeline_map() == old(self).pipeline_map(),
            final(self).pool() == old(self).pool(),
            final(self).capacity() == old(self).capacity(),
            final(self).allocated() == old(self).allocated(),
    {
        if !self.shader_resources.contains(shader_id) {
            return Err(ResourceError::UnknownShader);
        }
        let mut record = self.shader_resources.insert(shader_id, ShaderResources::new()).unwrap();
        record.descriptor_layouts.push(layout);
        self.shader_resources.insert(shader_id, record);
        proof {
            assert(self.shaders().dom() =~= old(self).shaders().dom());
        }
        Ok(())
    }

    /// The descriptor-set layouts of `shader_id`, from which its pipeline
    /// layout is built.
    pub fn descriptor_layouts(&self, shader_id: &str) -> (r: Result<Vec<u64>, ResourceError>)
        requires
            self.wf(),
        ensures
            r is Err <==> !self.shaders().contains_key(shader_id@),
            r is Err ==> r == Err::<Vec<u64>, ResourceError>(ResourceError::UnknownShader),
            r matches Ok(v) ==> v@ == self.shaders()[shader_id@].descriptor_layouts@,
    {
        match self.shader_resources.get(shader_id) {
            Some(record) => Ok(copy_handles(&record.descriptor_layouts)),
            None => Err(ResourceError::UnknownShader),
        }
    }

    /// The layouts to allocate one descriptor set each for, when the pool
    /// still has room for them.
    pub fn plan_descriptor_sets(&self, shader_id: &str) -> (r: Result<Vec<u64>, ResourceError>)
        requires
            self.wf(),
        ensures
            r == Err::<Vec<u64>, ResourceError>(ResourceError::UnknownShader)
                <==> !self.shaders().contains_key(shader_id@),
            r == Err::<Vec<u64>, ResourceError>(ResourceError::PoolExhausted) <==> self.shaders().contains_key(shader_id@)
                && self.allocated() + self.shaders()[shader_id@].descriptor_layouts@.len() > self.capacity(),
            r is Ok <==> self.shaders().contains_key(shader_id@)
                && self.allocated() + self.shaders()[shader_id@].descriptor_layouts@.len() <= self.capacity(),
            r matches Ok(v) ==> v@ == self.shaders()[shader_id@].descriptor_layouts@,
    {
        match self.shader_resources.get(shader_id) {
            Some(record) => {
                let n = record.descriptor_layouts.len();
                if n > (self.max_sets - self.sets_allocated) as usize {
                    Err(ResourceError::PoolExhausted)
                } else {
                    Ok(copy_handles(&record.descriptor_layouts))
                }
            },
            None => Err(ResourceError::UnknownShader),
        }
    }

    /// Records the descriptor sets allocated for `shader_id`, one per layout,
    /// replacing any recorded before, and counts them against the pool.
    pub fn allocate_shader_descriptor_sets(&mut self, shader_id: &str, sets: Vec<u64>) -> (r: Result<(), ResourceError>)
        requires
            old(self).wf(),
        ensures
            final(self).wf(),
            r == Err::<(), ResourceError>(ResourceError::UnknownShader) <==> !old(self).shaders().contains_key(shader_id@),
            r == Err::<(), ResourceError>(ResourceError::SetCountMismatch) <==> old(self).shaders().contains_key(shader_id@)
                && sets@.len() != old(self).shaders()[shader_id@].descriptor_layouts@.len(),
            r == Err::<(), ResourceError>(ResourceError::PoolExhausted) <==> old(self).shaders().contains_key(shader_id@)
                && sets@.len() == old(self).shaders()[shader_id@].descriptor_layouts@.len()
                && old(self).allocated() + sets@.len() > old(self).capacity(),
            r is Ok <==> old(self).shaders().contains_key(shader_id@)
                && sets@.len() == old(self).shaders()[shader_id@].descriptor_layouts@.len()
                && old(self).allocated() + sets@.len() <= old(self).capacity(),
            r is Err ==> final(self).shaders() == old(self).shaders() && final(self).allocated() == old(self).allocated(),
            r is Ok ==> final(self).shaders().dom() == old(self).shaders().dom()
                && final(self).shaders()[shader_id@].descriptor_sets@ == sets@
                && final(self).shaders()[shader_id@].descriptor_layouts@
                    == old(self).shaders()[shader_id@].descriptor_layouts@
                && final(self).allocated() == old(self).allocated() + sets@.len(),
            forall|k: Seq<char>| k != shader_id@ && old(self).shaders().contains_key(k)
                ==> #[trigger] final(self).shaders()[k] == old(self).shaders()[k],
            final(self).pipeline_map() == old(self).pipeline_map(),
            final(self).pool() == old(self).pool(),
            final(self).capacity() == old(self).capacity(),
    {
        if !self.shader_resources.contains(shader_id) {
            return Err(ResourceError::UnknownShader);
        }
        let mut record = self.shader_resources.insert(shader_id, ShaderResources::new()).unwrap();
        if sets.len() != record.descriptor_layouts.len() {
            self.shader_resources.insert(shader_id, record);
            proof {
                assert(self.shaders() =~= old(self).shaders());
            }
            return Err(ResourceError::SetCountMismatch);
        }
        if sets.len() > (self.max_sets - self.sets_allocated) as usize {
            self.shader_resources.insert(shader_id, record);
            proof {
                assert(self.shaders() =~= old(self).shaders());
            }
            return Err(ResourceError::PoolExhausted);
        }
        self.sets_allocated = self.sets_allocated + sets.len() as u32;
        record.descriptor_sets = sets;
        self.shader_resources.insert(shader_id, record);
        proof {
            assert(self.shaders().dom() =~= old(self).shaders().dom());
        }
        Ok(())
    }

    /// Registers a realized pipeline under `pipeline_id`, returning the one
    /// it replaces so that its objects can be destroyed.
    pub fn create_graphics_pipeline(&mut self, pipeline_id: &str, pipeline: GraphicsPipeline) -> (r: Option<GraphicsPipeline>)
        requires
            old(self).wf(),
        ensures
            final(self).wf(),
            final(self).pipeline_map() == old(self).pipeline_map().insert(pipeline_id@, pipeline),
            r matches Some(v) ==> old(self).pipeline_map().contains_key(pipeline_id@)
                && v == old(self).pipeline_map()[pipeline_id@],
            r is None ==> !old(self).pipeline_map().contains_key(pipeline_id@),
            final(self).shaders() == old(self).shaders(),
            final(self).pool() == old(self).pool(),
            final(self).capacity() == old(self).capacity(),
            final(self).allocated() == old(self).allocated(),
    {
        self.pipelines.insert(pipeline_id, pipeline)
    }

    /// Every owned object in the order to destroy it, once the device is
    /// idle: pipelines, then pipeline layouts, then shader modules, then
    /// descriptor-set layouts, then the pool, which frees the sets with it.
    pub fn teardown(&self) -> (r: Vec<OwnedObject>)
        requires
            self.wf(),
        ensures
            r@ == pipeline_teardown(self.pipeline_entries()) + layout_teardown(self.shader_entries())
                + seq![OwnedObject { kind: ObjectKind::DescriptorPool, handle: self.pool() }],
    {
        let ghost ps = self.pipelines.entries();
        let ghost ss = self.shader_resources.entries();
        let n = self.pipelines.len();
        let mut out: Vec<OwnedObject> = Vec::new();
        let mut i: usize = 0;
        while i < n
            invariant
                self.wf(),
                n == ps.len(),
                ps == self.pipelines.entries(),
                i <= n,
                out@ =~= ps.subrange(0, i as int).map_values(|p: GraphicsPipeline| OwnedObject { kind: ObjectKind::Pipeline, handle: p.pipeline }),
            decreases n - i,
        {
            out.push(OwnedObject { kind: ObjectKind::Pipeline, handle: self.pipelines.value_at(i).pipeline });
            i = i + 1;
        }
        let ghost first = out@;
        let mut i: usize = 0;
        while i < n
            invariant
                self.wf(),
                n == ps.len(),
                ps == self.pipelines.entries(),
                i <= n,
                out@ =~= first + ps.subrange(0, i as int).map_values(|p: GraphicsPipeline| OwnedObject { kind: ObjectKind::PipelineLayout, handle: p.pipeline_layout }),
            decreases n - i,
        {
            out.push(OwnedObject { kind: ObjectKind::PipelineLayout, handle: self.pipelines.value_at(i).pipeline_layout });
            i = i + 1;
        }
        let ghost second = out@;
        let mut i: usize = 0;
        while i < n
            invariant
                self.wf(),
                n == ps.len(),
                ps == self.pipelines.entries(),
                i <= n,
                out@ =~= second + ps.subrange(0, i as int).map_values(|p: GraphicsPipeline| tagged(ObjectKind::ShaderModule, p.shader_modules@)).flatten(),
            decreases n - i,
        {
            let p = self.pipelines.value_at(i);
            push_tagged(&mut out, ObjectKind::ShaderModule, &p.shader_modules);
            proof {
                let f = |p: GraphicsPipeline| tagged(ObjectKind::ShaderModule, p.shader_modules@);
                assert(ps.subrange(0, i + 1).map_values(f) =~= ps.subrange(0, i as int).map_values(f).push(f(ps[i as int])));
                ps.subrange(0, i as int).map_values(f).lemma_flatten_push(f(ps[i as int]));
            }
            i = i + 1;
        }
        proof {
            assert(ps.subrange(0, n as int) =~= ps);
            assert(out@ =~= pipeline_teardown(ps));
        }
        let ghost third = out@;
        let m = self.shader_resources.len();
        let mut i: usize = 0;
        while i < m
            invariant
                self.wf(),
                m == ss.len(),
                ss == self.shader_resources.entries(),
                i <= m,
                out@ =~= third + ss.subrange(0, i as int).map_values(|s: ShaderResources| tagged(ObjectKind::DescriptorSetLayout, s.descriptor_layouts@)).flatten(),
            decreases m - i,
        {
            let s = self.shader_resources.value_at(i);
            push_tagged(&mut out, ObjectKind::DescriptorSetLayout, &s.descriptor_layouts);
            proof {
                let f = |s: ShaderResources| tagged(ObjectKind::DescriptorSetLayout, s.descriptor_layouts@);
                assert(ss.subrange(0, i + 1).map_values(f) =~= ss.subrange(0, i as int).map_values(f).push(f(ss[i as int])));
                ss.subrange(0, i as int).map_values(f).lemma_flatten_push(f(ss[i as int]));
            }
            i = i + 1;
        }
        proof {
            assert(ss.subrange(0, m as int) =~= ss);
        }
        out.push(OwnedObject { kind: ObjectKind::DescriptorPool, handle: self.descriptor_pool });
        out
    }

    /// The pipeline handle registered under `pipeline_id`.
    pub fn get_graphics_pipeline(&self, pipeline_id: &str) -> (r: Result<u64, ResourceError>)
        requires
            self.wf(),
        ensures
            r is Err <==> !self.pipeline_map().contains_key(pipeline_id@),
            r is Err ==> r == Err::<u64, ResourceError>(ResourceError::UnknownPipeline),
            r matches Ok(h) ==> h == self.pipeline_map()[pipeline_id@].pipeline,
    {
        match self.pipelines.get(pipeline_id) {
            Some(p) => Ok(p.pipeline),
            None => Err(ResourceError::UnknownPipeline),
        }
    }
}

} // verus!
