//! The pipelines of the batching renderer: one cache per shader, filled on
//! first use of a pipeline key.
use vstd::prelude::*;

use pi_hash::XHashMap;

use crate::shaders::EShader;
use crate::xmap::{xmap_get, xmap_insert, xmap_new};

verus! {

/// Key of a pipeline, computed from its fixed-function state.
pub type SpinePipelineKey = u64;

/// A pool of pipelines, one cache per shader.
pub trait SpinePipelinePool<P> {
    /// The pipelines of `shader`, by key.
    spec fn spec_pipelines(&self, shader: EShader) -> Map<u64, P>;

    fn record_spine_pipeline_colored(&mut self, key: SpinePipelineKey, pipeline: P)
        ensures
            final(self).spec_pipelines(EShader::Colored) == old(self).spec_pipelines(
                EShader::Colored,
            ).insert(key, pipeline),
            final(self).spec_pipelines(EShader::ColoredTextured) == old(self).spec_pipelines(
                EShader::ColoredTextured,
            ),
            final(self).spec_pipelines(EShader::TwoColoredTextured) == old(self).spec_pipelines(
                EShader::TwoColoredTextured,
            ),
    ;

    fn record_spine_pipeline_colored_textured(&mut self, key: SpinePipelineKey, pipeline: P)
        ensures
            final(self).spec_pipelines(EShader::Colored) == old(self).spec_pipelines(
                EShader::Colored,
            ),
            final(self).spec_pipelines(EShader::ColoredTextured) == old(self).spec_pipelines(
                EShader::ColoredTextured,
            ).insert(key, pipeline),
            final(self).spec_pipelines(EShader::TwoColoredTextured) == old(self).spec_pipelines(
                EShader::TwoColoredTextured,
            ),
    ;

    fn record_spine_pipeline_colored_textured_two(&mut self, key: SpinePipelineKey, pipeline: P)
        ensures
            final(self).spec_pipelines(EShader::Colored) == old(self).spec_pipelines(
                EShader::Colored,
            ),
            final(self).spec_pipelines(EShader::ColoredTextured) == old(self).spec_pipelines(
                EShader::ColoredTextured,
            ),
            final(self).spec_pipelines(EShader::TwoColoredTextured) == old(self).spec_pipelines(
                EShader::TwoColoredTextured,
            ).insert(key, pipeline),
    ;

    fn get_spine_pipeline_colored(&self, key: SpinePipelineKey) -> (r: Option<&P>)
        ensures
            r == (if self.spec_pipelines(EShader::Colored).contains_key(key) {
                Some(&self.spec_pipelines(EShader::Colored)[key])
            } else {
                None
            }),
    ;

    fn get_spine_pipeline_colored_textured(&self, key: SpinePipelineKey) -> (r: Option<&P>)
        ensures
            r == (if self.spec_pipelines(EShader::ColoredTextured).contains_key(key) {
                Some(&self.spec_pipelines(EShader::ColoredTextured)[key])
            } else {
                None
            }),
    ;

    fn get_spine_pipeline_colored_textured_two(&self, key: SpinePipelineKey) -> (r: Option<&P>)
        ensures
            r == (if self.spec_pipelines(EShader::TwoColoredTextured).contains_key(key) {
                Some(&self.spec_pipelines(EShader::TwoColoredTextured)[key])
            } else {
                None
            }),
    ;
}

/// A pool of pipelines kept in three hash maps.
pub struct SpinePipelinePoolSimple<P> {
    colored: XHashMap<u64, P>,
    colored_textured: XHashMap<u64, P>,
    colored_textured_two: XHashMap<u64, P>,
}

impl<P> Default for SpinePipelinePoolSimple<P> {
    /// A pool with no pipeline.
    fn default() -> (r: Self)
        ensures
            r.spec_pipelines(EShader::Colored) == Map::<u64, P>::empty(),
            r.spec_pipelines(EShader::ColoredTextured) == Map::<u64, P>::empty(),
            r.spec_pipelines(EShader::TwoColoredTextured) == Map::<u64, P>::empty(),
    {
        Self { colored: xmap_new(), colored_textured: xmap_new(), colored_textured_two: xmap_new() }
    }
}

impl<P> SpinePipelinePool<P> for SpinePipelinePoolSimple<P> {
    closed spec fn spec_pipelines(&self, shader: EShader) -> Map<u64, P> {
        match shader {
            EShader::Colored => self.colored@,
            EShader::ColoredTextured => self.colored_textured@,
            EShader::TwoColoredTextured => self.colored_textured_two@,
        }
    }

    fn record_spine_pipeline_colored(&mut self, key: SpinePipelineKey, pipeline: P) {
        xmap_insert(&mut self.colored, key, pipeline);
    }

    fn record_spine_pipeline_colored_textured(&mut self, key: SpinePipelineKey, pipeline: P) {
        xmap_insert(&mut self.colored_textured, key, pipeline);
    }

    fn record_spine_pipeline_colored_textured_two(&mut self, key: SpinePipelineKey, pipeline: P) {
        xmap_insert(&mut self.colored_textured_two, key, pipeline);
    }

    fn get_spine_pipeline_colored(&self, key: SpinePipelineKey) -> (r: Option<&P>) {
        xmap_get(&self.colored, &key)
    }

    fn get_spine_pipeline_colored_textured(&self, key: SpinePipelineKey) -> (r: Option<&P>) {
        xmap_get(&self.colored_textured, &key)
    }

    fn get_spine_pipeline_colored_textured_two(&self, key: SpinePipelineKey) -> (r: Option<&P>) {
        xmap_get(&self.colored_textured_two, &key)
    }
}

/// The pipelines `w` of a shader after a check of `key` on `v`: unchanged
/// when `key` had a pipeline, else with one that `create` made added under
/// `key`.
pub open spec fn spec_check_post<P, F: FnOnce() -> P>(
    v: Map<u64, P>,
    w: Map<u64, P>,
    key: u64,
    create: F,
) -> bool {
    &&& v.contains_key(key) ==> w == v
    &&& !v.contains_key(key) ==> exists|made: P| call_ensures(create, (), made) && w == v.insert(
        key,
        made,
    )
}

/// Entry points to the pipeline pools.
pub struct SpinePipeline {}

impl SpinePipeline {
    /// Makes sure that `pipelines` has a pipeline of `shader` under `key`:
    /// when it has none, `create` makes one, which is recorded. The pools
    /// of the other shaders do not change. Returns `key`.
    pub fn check<P, PP: SpinePipelinePool<P>, F: FnOnce() -> P>(
        shader: EShader,
        pipelines: &mut PP,
        key: SpinePipelineKey,
        create: F,
    ) -> (r: SpinePipelineKey)
        requires
            call_requires(create, ()),
        ensures
            r == key,
            spec_check_post(
                old(pipelines).spec_pipelines(shader),
                final(pipelines).spec_pipelines(shader),
                key,
                create,
            ),
            forall|other: EShader|
                other != shader ==> final(pipelines).spec_pipelines(other) == old(pipelines).spec_pipelines(other),
    {
        match shader {
            EShader::Colored => Self::check_colored(pipelines, key, create),
            EShader::ColoredTextured => Self::check_colored_textured(pipelines, key, create),
            EShader::TwoColoredTextured => Self::check_colored_textured_two(pipelines, key, create),
        }
    }

    /// The pipeline of `shader` under `key`, if the pool has one.
    pub fn get<'a, P, PP: SpinePipelinePool<P>>(
        shader: EShader,
        pipelines: &'a PP,
        key: SpinePipelineKey,
    ) -> (r: Option<&'a P>)
        ensures
            r == (if pipelines.spec_pipelines(shader).contains_key(key) {
                Some(&pipelines.spec_pipelines(shader)[key])
            } else {
                None
            }),
    {
        match shader {
            EShader::Colored => pipelines.get_spine_pipeline_colored(key),
            EShader::ColoredTextured => pipelines.get_spine_pipeline_colored_textured(key),
            EShader::TwoColoredTextured => pipelines.get_spine_pipeline_colored_textured_two(key),
        }
    }

    /// [`SpinePipeline::check`] for the colored shader.
    pub fn check_colored<P, PP: SpinePipelinePool<P>, F: FnOnce() -> P>(
        pipelines: &mut PP,
        key: SpinePipelineKey,
        create: F,
    ) -> (r: SpinePipelineKey)
        requires
            call_requires(create, ()),
        ensures
            r == key,
            spec_check_post(
                old(pipelines).spec_pipelines(EShader::Colored),
                final(pipelines).spec_pipelines(EShader::Colored),
                key,
                create,
            ),
            forall|other: EShader|
                other != EShader::Colored ==> final(pipelines).spec_pipelines(other) == old(pipelines).spec_pipelines(other),
    {
        match pipelines.get_spine_pipeline_colored(key) {
            Some(_) => {},
            None => {
                let pipeline = create();
                pipelines.record_spine_pipeline_colored(key, pipeline);
            },
        }
        key
    }

    /// [`SpinePipeline::check`] for the colored textured shader.
    pub fn check_colored_textured<P, PP: SpinePipelinePool<P>, F: FnOnce() -> P>(
        pipelines: &mut PP,
        key: SpinePipelineKey,
        create: F,
    ) -> (r: SpinePipelineKey)
        requires
            call_requires(create, ()),
        ensures
            r == key,
            spec_check_post(
                old(pipelines).spec_pipelines(EShader::ColoredTextured),
                final(pipelines).spec_pipelines(EShader::ColoredTextured),
                key,
                create,
            ),
            forall|other: EShader|
                other != EShader::ColoredTextured ==> final(pipelines).spec_pipelines(other) == old(pipelines).spec_pipelines(other),
    {
        match pipelines.get_spine_pipeline_colored_textured(key) {
            Some(_) => {},
            None => {
                let pipeline = create();
                pipelines.record_spine_pipeline_colored_textured(key, pipeline);
            },
        }
        key
    }

    /// [`SpinePipeline::check`] for the two-colored textured shader.
    pub fn check_colored_textured_two<P, PP: SpinePipelinePool<P>, F: FnOnce() -> P>(
        pipelines: &mut PP,
        key: SpinePipelineKey,
        create: F,
    ) -> (r: SpinePipelineKey)
        requires
            call_requires(create, ()),
        ensures
            r == key,
            spec_check_post(
                old(pipelines).spec_pipelines(EShader::TwoColoredTextured),
                final(pipelines).spec_pipelines(EShader::TwoColoredTextured),
                key,
                create,
            ),
            forall|other: EShader|
                other != EShader::TwoColoredTextured ==> final(pipelines).spec_pipelines(other)
                    == old(pipelines).spec_pipelines(other),
    {
        match pipelines.get_spine_pipeline_colored_textured_two(key) {
            Some(_) => {},
            None => {
                let pipeline = create();
                pipelines.record_spine_pipeline_colored_textured_two(key, pipeline);
            },
        }
        key
    }
}

/// A read after a check: once `check` has run for a shader and a key, the
/// shader's pool has a pipeline under that key (so `get` returns it), and a
/// pipeline that was there already is kept.
pub proof fn lemma_check_then_get<P, F: FnOnce() -> P>(
    before: Map<u64, P>,
    after: Map<u64, P>,
    key: u64,
    create: F,
)
    requires
        spec_check_post(before, after, key, create),
    ensures
        after.contains_key(key),
        before.contains_key(key) ==> after[key] == before[key],
{
}

/// A second check of the same key creates nothing: the pool stays as the
/// first check left it.
pub proof fn lemma_check_twice<P, F: FnOnce() -> P, G: FnOnce() -> P>(
    before: Map<u64, P>,
    middle: Map<u64, P>,
    after: Map<u64, P>,
    key: u64,
    first: F,
    second: G,
)
    requires
        spec_check_post(before, middle, key, first),
        spec_check_post(middle, after, key, second),
    ensures
        after == middle,
{
}

} // verus!
