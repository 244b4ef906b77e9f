//! Verified core of a Spine skeleton renderer: vertex/index staging
//! buffers, the recorder that turns Spine draw commands into draw objects,
//! the pipeline and shader pools, and the material layouts.
use vstd::prelude::*;

pub mod material;
pub mod mesh_renderer;
pub mod pipeline;
pub mod polygon_batcher;
pub mod render;
pub mod shaders;
pub mod spine_render;
mod xmap;

verus! {

/// Largest number of vertices that one batch may hold.
pub const MAX_VERTICES: u16 = 10920;

/// Copies `data` into `vec` starting at `offset`, when it fits; otherwise
/// `vec` is left as it is.
pub fn vec_set<T: Copy>(vec: &mut Vec<T>, data: &[T], offset: usize)
    ensures
        offset + data@.len() <= old(vec)@.len() ==> final(vec)@ == old(vec)@.subrange(0, offset as int)
            + data@ + old(vec)@.subrange(offset + data@.len(), old(vec)@.len() as int),
        offset + data@.len() > old(vec)@.len() ==> final(vec)@ == old(vec)@,
{
    let len = data.len();
    if offset <= vec.len() && len <= vec.len() - offset {
        let ghost start = vec@;
        let mut i: usize = 0;
        while i < len
            invariant
                i <= len,
                len == data@.len(),
                offset + len <= start.len(),
                vec@.len() == start.len(),
                vec.len() == start.len(),
                forall|j: int| 0 <= j < offset ==> vec@[j] == start[j],
                forall|j: int| 0 <= j < i ==> vec@[offset + j] == data@[j],
                forall|j: int| offset + i <= j < start.len() ==> vec@[j] == start[j],
            decreases len - i,
        {
            vec.set(offset + i, data[i]);
            i = i + 1;
        }
        assert(vec@ =~= start.subrange(0, offset as int) + data@ + start.subrange(
            offset + data@.len(),
            start.len() as int,
        ));
    }
}


/// The shader objects of the batching renderer, one per shader, once made.
pub struct SpineShaderPoolSimple<S> {
    pub colored: Option<S>,
    pub colored_textured: Option<S>,
    pub colored_textured_two: Option<S>,
}

impl<S> Default for SpineShaderPoolSimple<S> {
    /// A pool with no shader made yet.
    fn default() -> (r: Self)
        ensures
            r.colored is None,
            r.colored_textured is None,
            r.colored_textured_two is None,
    {
        Self { colored: None, colored_textured: None, colored_textured_two: None }
    }
}

impl<S> SpineShaderPoolSimple<S> {
    pub fn record_spine_shader_colored(&mut self, shader: S)
        ensures
            *final(self) == (SpineShaderPoolSimple { colored: Some(shader), ..*old(self) }),
    {
        self.colored = Some(shader);
    }

    pub fn record_spine_shader_colored_textured(&mut self, shader: S)
        ensures
            *final(self) == (SpineShaderPoolSimple { colored_textured: Some(shader), ..*old(self) }),
    {
        self.colored_textured = Some(shader);
    }

    pub fn record_spine_shader_colored_textured_two(&mut self, shader: S)
        ensures
            *final(self) == (SpineShaderPoolSimple {
                colored_textured_two: Some(shader),
                ..*old(self)
            }),
    {
        self.colored_textured_two = Some(shader);
    }

    /// The colored shader; it must have been made.
    pub fn get_spine_shader_colored(&self) -> (r: &S)
        requires
            self.colored is Some,
        ensures
            *r == self.colored.unwrap(),
    {
        self.colored.as_ref().unwrap()
    }

    /// The colored textured shader; it must have been made.
    pub fn get_spine_shader_colored_textured(&self) -> (r: &S)
        requires
            self.colored_textured is Some,
        ensures
            *r == self.colored_textured.unwrap(),
    {
        self.colored_textured.as_ref().unwrap()
    }

    /// The two-colored textured shader; it must have been made.
    pub fn get_spine_shader_colored_textured_two(&self) -> (r: &S)
        requires
            self.colored_textured_two is Some,
        ensures
            *r == self.colored_textured_two.unwrap(),
    {
        self.colored_textured_two.as_ref().unwrap()
    }
}

} // verus!
