//! The uniform parameters of a Spine draw (matrix, two colors) and the
//! allocation of the slots of the buffers that hold them.
use vstd::prelude::*;

use crate::spine_render::gpu_state::{BindGroupLayoutEntry, BindingType, ShaderStages};

verus! {

/// The uniform parameter block of a Spine draw.
pub struct BindParam {}

impl BindParam {
    /// Bytes of the parameter block: a 4x4 matrix and two 4-vectors of
    /// floats.
    pub const SIZE: usize = (16 + 4 + 4) * 4;

    /// The layout entry of the parameter block: a uniform buffer at
    /// binding 0, seen by both stages.
    pub open spec fn spec_layout_entry() -> BindGroupLayoutEntry {
        BindGroupLayoutEntry {
            binding: 0,
            visibility: ShaderStages::VertexFragment,
            ty: BindingType::UniformBuffer { has_dynamic_offset: false, min_binding_size: 96 },
        }
    }

    /// The layout entry of the parameter block (see
    /// [`BindParam::spec_layout_entry`]).
    pub fn layout_entry() -> (r: BindGroupLayoutEntry)
        ensures
            r == Self::spec_layout_entry(),
    {
        BindGroupLayoutEntry {
            binding: 0,
            visibility: ShaderStages::VertexFragment,
            ty: BindingType::UniformBuffer {
                has_dynamic_offset: false,
                min_binding_size: Self::SIZE as u64,
            },
        }
    }
}

/// Hands out the keys of parameter buffers. A key comes back to the free
/// list when its buffer is dropped, and is handed out again before any new
/// key is made; new keys count up from 1.
pub struct BindBufferAllocator {
    couter: usize,
    list: Vec<usize>,
}

impl BindBufferAllocator {
    /// Number of keys made so far.
    pub closed spec fn counter(&self) -> nat {
        self.couter as nat
    }

    /// Keys given back and not handed out again, the last given back last.
    pub closed spec fn free(&self) -> Seq<usize> {
        self.list@
    }

    /// Every free key was made before, and none is free twice.
    pub open spec fn wf(&self) -> bool {
        &&& self.free().no_duplicates()
        &&& forall|i: int|
            0 <= i < self.free().len() ==> 1 <= #[trigger] self.free()[i] <= self.counter()
    }

    pub fn new() -> (r: Self)
        ensures
            r.wf(),
            r.counter() == 0,
            r.free() == Seq::<usize>::empty(),
    {
        BindBufferAllocator { couter: 0, list: Vec::new() }
    }

    /// Hands out a key: the key given back last, or else a new one.
    pub fn allocate(&mut self) -> (idx: usize)
        requires
            old(self).wf(),
            old(self).free().len() > 0 || old(self).counter() < usize::MAX,
        ensures
            final(self).wf(),
            old(self).free().len() > 0 ==> {
                &&& idx == old(self).free().last()
                &&& final(self).free() == old(self).free().drop_last()
                &&& final(self).counter() == old(self).counter()
            },
            old(self).free().len() == 0 ==> {
                &&& idx == old(self).counter() + 1
                &&& final(self).free() == old(self).free()
                &&& final(self).counter() == old(self).counter() + 1
            },
            1 <= idx <= final(self).counter(),
            !final(self).free().contains(idx),
    {
        match self.list.pop() {
            Some(idx) => {
                proof {
                    let old_free = old(self).free();
                    assert(old_free =~= self.list@.push(idx));
                    assert(old_free[old_free.len() - 1] == idx);
                    if self.list@.contains(idx) {
                        let k = choose|k: int| 0 <= k < self.list@.len() && self.list@[k] == idx;
                        assert(old_free[k] == old_free[old_free.len() - 1]);
                    }
                    assert forall|i: int|
                        0 <= i < self.free().len() implies 1 <= #[trigger] self.free()[i]
                        <= self.counter() by {
                        assert(self.free()[i] == old_free[i]);
                    }
                    assert forall|i: int, j: int|
                        0 <= i < self.free().len() && 0 <= j < self.free().len() && i != j implies
                        self.free()[i] != self.free()[j] by {
                        assert(self.free()[i] == old_free[i]);
                        assert(self.free()[j] == old_free[j]);
                    }
                }
                idx
            },
            None => {
                self.couter = self.couter + 1;
                proof {
                    if self.list@.contains(self.couter) {
                        let k = choose|k: int|
                            0 <= k < self.list@.len() && self.list@[k] == self.couter;
                        assert(1 <= self.free()[k]);
                    }
                }
                self.couter
            },
        }
    }

    /// Gives back a key whose buffer was dropped.
    pub fn release(&mut self, idx: usize)
        requires
            old(self).wf(),
            1 <= idx <= old(self).counter(),
            !old(self).free().contains(idx),
        ensures
            final(self).wf(),
            final(self).free() == old(self).free().push(idx),
            final(self).counter() == old(self).counter(),
    {
        self.list.push(idx);
        proof {
            let old_free = old(self).free();
            assert forall|i: int|
                0 <= i < self.free().len() implies 1 <= #[trigger] self.free()[i]
                <= self.counter() by {
                if i < old_free.len() {
                    assert(self.free()[i] == old_free[i]);
                }
            }
            assert forall|i: int, j: int|
                0 <= i < self.free().len() && 0 <= j < self.free().len() && i != j implies
                self.free()[i] != self.free()[j] by {
                if i < old_free.len() && j < old_free.len() {
                    assert(self.free()[i] == old_free[i]);
                    assert(self.free()[j] == old_free[j]);
                } else if i < old_free.len() {
                    assert(self.free()[i] == old_free[i]);
                    assert(old_free.contains(old_free[i]));
                } else if j < old_free.len() {
                    assert(self.free()[j] == old_free[j]);
                    assert(old_free.contains(old_free[j]));
                }
            }
        }
    }
}

/// A key given back is the next one handed out, and the free list is then
/// as it was before.
pub proof fn lemma_release_then_allocate(
    before: BindBufferAllocator,
    released: BindBufferAllocator,
    after: BindBufferAllocator,
    idx: usize,
    got: usize,
)
    requires
        released.free() == before.free().push(idx),
        released.counter() == before.counter(),
        released.free().len() > 0 ==> {
            &&& got == released.free().last()
            &&& after.free() == released.free().drop_last()
            &&& after.counter() == released.counter()
        },
    ensures
        got == idx,
        after.free() == before.free(),
        after.counter() == before.counter(),
{
    assert(before.free().push(idx).drop_last() =~= before.free());
}

} // verus!
