//! Renderers of single meshes, and a pool that reuses them frame after
//! frame.
use vstd::prelude::*;

use crate::pipeline::{spec_check_post, SpinePipeline, SpinePipelineKey, SpinePipelinePool};
use crate::shaders::EShader;
use crate::spine_render::gpu_state::{spec_blend_for, BlendFactor, BlendState};

verus! {

/// A renderer of one mesh `M`: the mesh, its blending, its shader and the
/// key of its pipeline once checked.
pub struct MeshRenderer<M> {
    mesh: M,
    blend: Option<BlendState>,
    shader: EShader,
    pipeline_key: Option<SpinePipelineKey>,
}

impl<M> MeshRenderer<M> {
    pub closed spec fn spec_mesh(&self) -> M {
        self.mesh
    }

    pub closed spec fn spec_blend(&self) -> Option<BlendState> {
        self.blend
    }

    pub closed spec fn spec_shader(&self) -> EShader {
        self.shader
    }

    pub closed spec fn spec_pipeline_key(&self) -> Option<SpinePipelineKey> {
        self.pipeline_key
    }

    /// A renderer of `mesh`, colored, without blending or pipeline yet.
    pub fn new(mesh: M) -> (r: Self)
        ensures
            r.spec_mesh() == mesh,
            r.spec_blend() is None,
            r.spec_shader() == EShader::Colored,
            r.spec_pipeline_key() is None,
    {
        MeshRenderer { mesh, blend: None, shader: EShader::Colored, pipeline_key: None }
    }

    pub fn mesh(&self) -> (r: &M)
        ensures
            *r == self.spec_mesh(),
    {
        &self.mesh
    }

    pub fn mesh_mut(&mut self) -> (r: &mut M)
        ensures
            *r == old(self).spec_mesh(),
            final(self).spec_mesh() == *final(r),
            final(self).spec_blend() == old(self).spec_blend(),
            final(self).spec_shader() == old(self).spec_shader(),
            final(self).spec_pipeline_key() == old(self).spec_pipeline_key(),
    {
        &mut self.mesh
    }

    /// Takes the shader and the blend factors of the mesh's new contents,
    /// and makes sure that `pipelines` has the pipeline of `key` for the
    /// shader (made by `create` when missing), which the renderer then
    /// draws with.
    pub fn update<P, PP: SpinePipelinePool<P>, F: FnOnce() -> P>(
        &mut self,
        shader: EShader,
        src_factor: BlendFactor,
        dst_factor: BlendFactor,
        pipelines: &mut PP,
        key: SpinePipelineKey,
        create: F,
    )
        requires
            call_requires(create, ()),
        ensures
            final(self).spec_mesh() == old(self).spec_mesh(),
            final(self).spec_shader() == shader,
            final(self).spec_blend() == Some(spec_blend_for(src_factor, dst_factor)),
            final(self).spec_pipeline_key() == Some(key),
            spec_check_post(
                old(pipelines).spec_pipelines(shader),
                final(pipelines).spec_pipelines(shader),
                key,
                create,
            ),
            forall|other: EShader|
                other != shader ==> final(pipelines).spec_pipelines(other) == old(
                    pipelines).spec_pipelines(other),
    {
        self.shader = shader;
        self.blend = Some(BlendState::with_factors(src_factor, dst_factor));
        self.pipeline_key = Some(SpinePipeline::check(shader, pipelines, key, create));
    }

    /// The pipeline to draw the mesh with: the one of its shader and key,
    /// when it has a key and the pool has that pipeline; otherwise the mesh
    /// is not drawn.
    pub fn pipeline<'a, P, PP: SpinePipelinePool<P>>(&self, pipelines: &'a PP) -> (r: Option<&'a P>)
        ensures
            r == (match self.spec_pipeline_key() {
                Some(key) => if pipelines.spec_pipelines(self.spec_shader()).contains_key(key) {
                    Some(&pipelines.spec_pipelines(self.spec_shader())[key])
                } else {
                    None
                },
                None => None,
            }),
    {
        match self.pipeline_key {
            Some(key) => SpinePipeline::get(self.shader, pipelines, key),
            None => None,
        }
    }
}

/// Mesh renderers reused frame after frame: the first `counter` are in use
/// this frame, the others wait.
pub struct MeshRendererPool<R> {
    renderers: Vec<R>,
    counter: usize,
}

impl<R> MeshRendererPool<R> {
    /// All renderers made so far.
    pub closed spec fn spec_renderers(&self) -> Seq<R> {
        self.renderers@
    }

    /// Number of renderers in use this frame.
    pub closed spec fn spec_counter(&self) -> nat {
        self.counter as nat
    }

    /// The renderers in use are among those made.
    pub open spec fn wf(&self) -> bool {
        self.spec_counter() <= self.spec_renderers().len()
    }

    /// Takes the next renderer into use, making one with `make` when all
    /// are in use, and returns its index.
    pub fn insert<F: FnOnce() -> R>(&mut self, make: F) -> (idx: usize)
        requires
            old(self).wf(),
            old(self).spec_counter() < usize::MAX,
            call_requires(make, ()),
        ensures
            final(self).wf(),
            idx == old(self).spec_counter(),
            final(self).spec_counter() == old(self).spec_counter() + 1,
            old(self).spec_counter() < old(self).spec_renderers().len() ==> final(
                self).spec_renderers() == old(self).spec_renderers(),
            old(self).spec_counter() == old(self).spec_renderers().len() ==> exists|made: R|
                call_ensures(make, (), made) && final(self).spec_renderers() == old(
                    self).spec_renderers().push(made),
    {
        self.counter = self.counter + 1;
        if self.renderers.len() < self.counter {
            let renderer = make();
            self.renderers.push(renderer);
        }
        self.counter - 1
    }

    /// Puts every renderer out of use; they stay for the next frames.
    pub fn reset(&mut self)
        requires
            old(self).wf(),
        ensures
            final(self).wf(),
            final(self).spec_counter() == 0,
            final(self).spec_renderers() == old(self).spec_renderers(),
    {
        self.counter = 0;
    }

    /// Number of renderers in use.
    pub fn active(&self) -> (r: usize)
        ensures
            r == self.spec_counter(),
    {
        self.counter
    }

    /// The renderer in use at `i`.
    pub fn get(&self, i: usize) -> (r: &R)
        requires
            self.wf(),
            i < self.spec_counter(),
        ensures
            *r == self.spec_renderers()[i as int],
    {
        &self.renderers[i]
    }

    /// The renderer in use at `i`, to change in place.
    pub fn get_mut(&mut self, i: usize) -> (r: &mut R)
        requires
            old(self).wf(),
            i < old(self).spec_counter(),
        ensures
            *r == old(self).spec_renderers()[i as int],
            final(self).spec_renderers() == old(self).spec_renderers().update(i as int, *final(r)),
            final(self).spec_counter() == old(self).spec_counter(),
    {
        &mut self.renderers[i]
    }
}

impl<R> Default for MeshRendererPool<R> {
    /// A pool with no renderer.
    fn default() -> (r: Self)
        ensures
            r.wf(),
            r.spec_counter() == 0,
            r.spec_renderers() == Seq::<R>::empty(),
    {
        Self { renderers: Vec::new(), counter: 0 }
    }
}

/// After a reset, taking a renderer into use reuses the first one made
/// instead of making another: the index is 0 and the renderers stay.
pub proof fn lemma_reset_then_insert<R>(
    before: MeshRendererPool<R>,
    reset: MeshRendererPool<R>,
    after: MeshRendererPool<R>,
    idx: usize,
)
    requires
        before.wf(),
        before.spec_renderers().len() > 0,
        reset.spec_counter() == 0,
        reset.spec_renderers() == before.spec_renderers(),
        idx == reset.spec_counter(),
        after.spec_counter() == reset.spec_counter() + 1,
        reset.spec_counter() < reset.spec_renderers().len() ==> after.spec_renderers()
            == reset.spec_renderers(),
    ensures
        idx == 0,
        after.spec_counter() == 1,
        after.spec_renderers() == before.spec_renderers(),
{
}

} // verus!
