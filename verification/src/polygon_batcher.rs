//! A batcher that gathers the polygons of consecutive draws with one
//! texture into meshes, and decides when a mesh is full and must be drawn.
//! The meshes themselves (`M`) and the drawing are the application's.
use vstd::prelude::*;

use crate::pipeline::{spec_check_post, SpinePipeline, SpinePipelineKey, SpinePipelinePool};
use crate::shaders::EShader;
use crate::spine_render::gpu_state::{spec_blend_for, BlendFactor, BlendState};
use crate::MAX_VERTICES;

verus! {

/// One attribute of a batched vertex.
#[derive(Debug, Clone, Copy, PartialEq, Eq, Hash, Structural)]
pub enum VertexAttribute {
    Position2,
    Color,
    Texcoords,
    Color2,
}

impl VertexAttribute {
    /// Number of floats of the attribute.
    pub open spec fn spec_elements(self) -> nat {
        match self {
            VertexAttribute::Position2 => 2,
            VertexAttribute::Color => 4,
            VertexAttribute::Texcoords => 2,
            VertexAttribute::Color2 => 4,
        }
    }
}

/// Number of floats of a vertex with these attributes.
pub open spec fn spec_elements(attributes: Seq<VertexAttribute>) -> nat
    decreases attributes.len(),
{
    if attributes.len() == 0 {
        0
    } else {
        spec_elements(attributes.drop_last()) + attributes.last().spec_elements()
    }
}

/// What the application does after a draw call to the batcher.
pub enum BatchStep {
    /// Flush the batcher (see [`PolygonBatcher::flush`]).
    Flush,
    /// Copy the vertices to the start of the vertices of this mesh.
    Write(usize),
}

/// The batcher.
pub struct PolygonBatcher<M> {
    pub src_factor: BlendFactor,
    pub dst_factor: BlendFactor,
    pub blend: Option<BlendState>,
    pub shader: EShader,
    pub meshes: Vec<M>,
    pub is_drawing: bool,
    pub draw_calls: usize,
    pub vertices_length: usize,
    pub indices_length: usize,
    pub last_texture_key: Option<u64>,
    pub attributes: Vec<VertexAttribute>,
    pub elements_per_vertex: u32,
    pub pipeline_key: Option<SpinePipelineKey>,
}

/// Largest number of floats of vertices that one mesh takes, for
/// `elements_per_vertex` floats per vertex.
pub open spec fn spec_vertices_limit(elements_per_vertex: nat) -> nat {
    MAX_VERTICES as nat * elements_per_vertex
}

impl<M> PolygonBatcher<M> {
    /// The meshes drawn so far this frame are among those made.
    pub open spec fn wf(&self) -> bool {
        self.draw_calls <= self.meshes@.len()
    }

    /// A batcher of vertices with position, color and texture coordinates,
    /// and a dark color when `two_color_tint`; it blends "one, zero" until
    /// told otherwise. The shader it picks is the two-colored one without
    /// two-color tint and the colored textured one with it.
    pub fn new(two_color_tint: bool) -> (r: Self)
        ensures
            r.wf(),
            r.attributes@ == if two_color_tint {
                seq![
                    VertexAttribute::Position2,
                    VertexAttribute::Color,
                    VertexAttribute::Texcoords,
                    VertexAttribute::Color2,
                ]
            } else {
                seq![VertexAttribute::Position2, VertexAttribute::Color, VertexAttribute::Texcoords]
            },
            r.elements_per_vertex == spec_elements(r.attributes@),
            r.shader == if two_color_tint {
                EShader::ColoredTextured
            } else {
                EShader::TwoColoredTextured
            },
            r.src_factor == BlendFactor::One,
            r.dst_factor == BlendFactor::Zero,
            r.blend is None,
            r.meshes@ == Seq::<M>::empty(),
            !r.is_drawing,
            r.draw_calls == 0,
            r.vertices_length == 0,
            r.indices_length == 0,
            r.last_texture_key is None,
            r.pipeline_key is None,
    {
        let attributes = if two_color_tint {
            vec![
                VertexAttribute::Position2,
                VertexAttribute::Color,
                VertexAttribute::Texcoords,
                VertexAttribute::Color2,
            ]
        } else {
            vec![VertexAttribute::Position2, VertexAttribute::Color, VertexAttribute::Texcoords]
        };
        let elements_per_vertex: u32 = if two_color_tint {
            2 + 4 + 2 + 4
        } else {
            2 + 4 + 2
        };
        proof {
            reveal_with_fuel(spec_elements, 5);
        }
        let shader = if two_color_tint {
            EShader::ColoredTextured
        } else {
            EShader::TwoColoredTextured
        };
        PolygonBatcher {
            src_factor: BlendFactor::One,
            dst_factor: BlendFactor::Zero,
            blend: None,
            shader,
            meshes: Vec::new(),
            is_drawing: false,
            draw_calls: 0,
            vertices_length: 0,
            indices_length: 0,
            last_texture_key: None,
            attributes,
            elements_per_vertex,
            pipeline_key: None,
        }
    }

    /// Starts a frame: no draw call yet, drawing, with the pipeline of
    /// `key` for the batcher's shader (made by `create` when missing).
    pub fn begin<P, PP: SpinePipelinePool<P>, F: FnOnce() -> P>(
        &mut self,
        pipelines: &mut PP,
        key: SpinePipelineKey,
        create: F,
    )
        requires
            old(self).wf(),
            call_requires(create, ()),
        ensures
            final(self).wf(),
            *final(self) == (PolygonBatcher {
                draw_calls: 0,
                is_drawing: true,
                pipeline_key: Some(key),
                ..*old(self)
            }),
            spec_check_post(
                old(pipelines).spec_pipelines(old(self).shader),
                final(pipelines).spec_pipelines(old(self).shader),
                key,
                create,
            ),
            forall|other: EShader|
                other != old(self).shader ==> final(pipelines).spec_pipelines(other) == old(
                    pipelines).spec_pipelines(other),
    {
        self.draw_calls = 0;
        self.is_drawing = true;
        let pipeline_key = SpinePipeline::check(self.shader, pipelines, key, create);
        self.pipeline_key = Some(pipeline_key);
    }

    /// Sets the color blend factors.
    pub fn set_blend_mode(&mut self, src_factor: BlendFactor, dst_factor: BlendFactor)
        ensures
            *final(self) == (PolygonBatcher {
                src_factor,
                dst_factor,
                blend: Some(spec_blend_for(src_factor, dst_factor)),
                ..*old(self)
            }),
    {
        self.src_factor = src_factor;
        self.dst_factor = dst_factor;
        self.blend = Some(BlendState::with_factors(src_factor, dst_factor));
    }

    /// Decides what a draw of `vertices_len` floats and `indices_len`
    /// indices with `texture_key` does: a new texture is remembered and
    /// flushes; too many vertices or indices for the current mesh flush;
    /// otherwise the vertices go to the current mesh.
    pub fn draw(&mut self, texture_key: Option<u64>, vertices_len: usize, indices_len: usize) -> (r:
        BatchStep)
        requires
            old(self).wf(),
            texture_key != old(self).last_texture_key || old(self).vertices_length + vertices_len
                > spec_vertices_limit(old(self).elements_per_vertex as nat) || old(
                self).indices_length + indices_len > MAX_VERTICES as nat * 3 || old(self).draw_calls
                < old(self).meshes@.len(),
        ensures
            final(self).wf(),
            texture_key != old(self).last_texture_key ==> r is Flush && *final(self) == (
            PolygonBatcher { last_texture_key: texture_key, ..*old(self) }),
            texture_key == old(self).last_texture_key ==> *final(self) == *old(self),
            texture_key == old(self).last_texture_key && (old(self).vertices_length + vertices_len
                > spec_vertices_limit(old(self).elements_per_vertex as nat) || old(
                self).indices_length + indices_len > MAX_VERTICES as nat * 3) ==> r is Flush,
            texture_key == old(self).last_texture_key && old(self).vertices_length + vertices_len
                <= spec_vertices_limit(old(self).elements_per_vertex as nat) && old(
                self).indices_length + indices_len <= MAX_VERTICES as nat * 3 ==> r == BatchStep::Write(
                old(self).draw_calls,
            ),
    {
        if texture_key != self.last_texture_key {
            self.last_texture_key = texture_key;
            BatchStep::Flush
        } else {
            let limit: u64 = MAX_VERTICES as u64 * self.elements_per_vertex as u64;
            let index_limit: u64 = MAX_VERTICES as u64 * 3;
            if vertices_len as u64 > limit || self.vertices_length as u64 > limit
                - vertices_len as u64 || indices_len as u64 > index_limit || self.indices_length as u64
                > index_limit - indices_len as u64 {
                BatchStep::Flush
            } else {
                BatchStep::Write(self.draw_calls)
            }
        }
    }

    /// Closes the current mesh when it holds vertices: counts a draw call,
    /// empties the lengths, makes a mesh with `make` when none is left for
    /// the next call, and returns the index of the mesh to draw.
    pub fn flush<F: FnOnce() -> M>(&mut self, make: F) -> (r: Option<usize>)
        requires
            old(self).wf(),
            old(self).draw_calls < usize::MAX,
            call_requires(make, ()),
        ensures
            final(self).wf(),
            old(self).vertices_length == 0 ==> r is None && *final(self) == *old(self),
            old(self).vertices_length > 0 ==> {
                &&& r == Some(old(self).draw_calls)
                &&& final(self).draw_calls == old(self).draw_calls + 1
                &&& final(self).vertices_length == 0
                &&& final(self).indices_length == 0
                &&& old(self).meshes@.len() > old(self).draw_calls + 1 ==> final(self).meshes@
                    == old(self).meshes@
                &&& old(self).meshes@.len() <= old(self).draw_calls + 1 ==> exists|made: M|
                    call_ensures(make, (), made) && final(self).meshes@ == old(self).meshes@.push(
                        made,
                    )
            },
    {
        if self.vertices_length == 0 {
            None
        } else {
            self.draw_calls = self.draw_calls + 1;
            self.vertices_length = 0;
            self.indices_length = 0;
            if self.meshes.len() <= self.draw_calls {
                let mesh = make();
                self.meshes.push(mesh);
            }
            Some(self.draw_calls - 1)
        }
    }

    /// Ends the frame: forgets the texture and, when drawing with vertices
    /// or indices left, empties the lengths and returns the index of the
    /// mesh to draw.
    pub fn end(&mut self) -> (r: Option<usize>)
        requires
            old(self).wf(),
            old(self).is_drawing && (old(self).vertices_length > 0 || old(self).indices_length > 0)
                ==> old(self).draw_calls < old(self).meshes@.len(),
        ensures
            final(self).wf(),
            final(self).last_texture_key is None,
            !old(self).is_drawing ==> r is None && *final(self) == (PolygonBatcher {
                last_texture_key: None,
                ..*old(self)
            }),
            old(self).is_drawing && old(self).vertices_length == 0 && old(self).indices_length == 0
                ==> r is None && *final(self) == (PolygonBatcher {
                last_texture_key: None,
                is_drawing: false,
                ..*old(self)
            }),
            old(self).is_drawing && (old(self).vertices_length > 0 || old(self).indices_length > 0)
                ==> r == Some(old(self).draw_calls) && *final(self) == (PolygonBatcher {
                last_texture_key: None,
                is_drawing: false,
                vertices_length: 0,
                indices_length: 0,
                ..*old(self)
            }),
    {
        self.last_texture_key = None;
        if !self.is_drawing {
            None
        } else {
            self.is_drawing = false;
            if self.vertices_length > 0 || self.indices_length > 0 {
                self.vertices_length = 0;
                self.indices_length = 0;
                Some(self.draw_calls)
            } else {
                None
            }
        }
    }
}

} // verus!
