//! Staging of vertex and index bytes into large GPU buffers.
//!
//! Each allocator keeps a list of staging buffers of one fixed capacity.
//! Between two uploads the bytes of many meshes are appended to the
//! staging buffer in use; when a mesh does not fit any more, the next
//! buffer takes over, and a new GPU buffer is created when the list runs
//! out. The GPU work itself (creating a buffer, writing to the queue) is
//! done by the caller: `collect` hands the initial contents of a new buffer
//! to a closure, and `upload` returns the writes to perform.
use vstd::prelude::*;

verus! {

/// One staging buffer: the bytes gathered since the last upload, and the
/// GPU buffer that receives them with its start and its capacity.
pub struct InstanceCacheBuffer<B> {
    vertices: Vec<u8>,
    buffer: (B, u32, u32),
}

/// Number of bytes of a mesh of `data_len` bytes that are kept: the data is
/// cut to the largest whole number of instances that fits the capacity.
pub open spec fn kept_len(capacity: nat, data_len: nat, bytes_per_instance: nat) -> nat {
    let max = (capacity / bytes_per_instance) * bytes_per_instance;
    if data_len < max {
        data_len
    } else {
        max
    }
}

/// The initial contents of a new GPU buffer: the kept bytes, then zeros up
/// to the capacity.
pub open spec fn padded(bytes: Seq<u8>, capacity: nat) -> Seq<u8> {
    bytes + Seq::new((capacity - bytes.len()) as nat, |i: int| 0u8)
}

/// `bytes` followed by zeros up to the next multiple of 4.
pub open spec fn pad4(bytes: Seq<u8>) -> Seq<u8> {
    if bytes.len() % 4 == 0 {
        bytes
    } else {
        bytes + Seq::new((4 - bytes.len() % 4) as nat, |i: int| 0u8)
    }
}

/// Indices, in increasing order, of the staging buffers among the first `k`
/// that hold bytes.
pub open spec fn nonempty_indices(staged: Seq<Seq<u8>>, k: int) -> Seq<int>
    decreases k,
{
    if k <= 0 {
        Seq::empty()
    } else if staged[k - 1].len() > 0 {
        nonempty_indices(staged, k - 1).push(k - 1)
    } else {
        nonempty_indices(staged, k - 1)
    }
}

proof fn lemma_nonempty_indices(staged: Seq<Seq<u8>>, k: int)
    requires
        0 <= k <= staged.len(),
    ensures
        forall|j: int|
            #![trigger nonempty_indices(staged, k)[j]]
            0 <= j < nonempty_indices(staged, k).len() ==> 0 <= nonempty_indices(staged, k)[j] < k
                && staged[nonempty_indices(staged, k)[j]].len() > 0,
    decreases k,
{
    if k > 0 {
        lemma_nonempty_indices(staged, k - 1);
        let p = nonempty_indices(staged, k - 1);
        let r = nonempty_indices(staged, k);
        assert forall|j: int| 0 <= j < r.len() implies 0 <= r[j] < k && staged[r[j]].len() > 0 by {
            if j < p.len() {
                assert(r[j] == p[j]);
            }
        }
    }
}

/// `w` writes the bytes `s` (padded to a multiple of 4 when `align4`) to a
/// clone of the buffer `h`.
pub open spec fn write_matches<B: Clone>(w: (B, Vec<u8>), h: B, s: Seq<u8>, align4: bool) -> bool {
    &&& cloned(h, w.0)
    &&& w.1@ == if align4 {
        pad4(s)
    } else {
        s
    }
}

/// `writes` are, in order, the writes of the staging buffers at `ix`.
pub open spec fn writes_match<B: Clone>(
    writes: Seq<(B, Vec<u8>)>,
    handles: Seq<B>,
    staged: Seq<Seq<u8>>,
    ix: Seq<int>,
    align4: bool,
) -> bool {
    &&& writes.len() == ix.len()
    &&& forall|j: int|
        0 <= j < ix.len() ==> write_matches(#[trigger] writes[j], handles[ix[j]], staged[ix[j]], align4)
}

/// Contents of the staging buffers.
pub closed spec fn staged_of<B>(list: Seq<InstanceCacheBuffer<B>>) -> Seq<Seq<u8>> {
    Seq::new(list.len(), |i: int| list[i].vertices@)
}

/// GPU buffers behind the staging buffers.
pub closed spec fn handles_of<B>(list: Seq<InstanceCacheBuffer<B>>) -> Seq<B> {
    Seq::new(list.len(), |i: int| list[i].buffer.0)
}

/// The list is consistent: every buffer starts at 0 with the common
/// capacity and holds no more than it, and no buffer past the one in use
/// holds anything.
closed spec fn list_wf<B>(list: Seq<InstanceCacheBuffer<B>>, used: nat, capacity: nat) -> bool {
    &&& used <= list.len()
    &&& forall|i: int|
        0 <= i < list.len() ==> {
            &&& (#[trigger] list[i]).buffer.1 == 0
            &&& list[i].buffer.2 == capacity
            &&& list[i].vertices@.len() <= capacity
            &&& i > used ==> list[i].vertices@.len() == 0
        }
}

/// Index of the buffer that receives `n` more bytes: the one in use, or the
/// next one when the bytes do not fit in it.
pub open spec fn target_index(staged: Seq<Seq<u8>>, used: nat, capacity: nat, n: nat) -> nat {
    if used < staged.len() && staged[used as int].len() + n > capacity {
        used + 1
    } else {
        used
    }
}

/// Outcome of a collect, stated over the lists before and after.
pub open spec fn collect_post<B: Clone, F: Fn(Vec<u8>) -> Option<B>>(
    old_staged: Seq<Seq<u8>>,
    old_handles: Seq<B>,
    old_used: nat,
    capacity: nat,
    data: Seq<u8>,
    bytes_per_instance: nat,
    create: &F,
    new_staged: Seq<Seq<u8>>,
    new_handles: Seq<B>,
    new_used: nat,
    r: Option<(B, u32, u32)>,
) -> bool {
    let n = kept_len(capacity, data.len(), bytes_per_instance);
    let kept = data.take(n as int);
    let t = target_index(old_staged, old_used, capacity, n);
    &&& new_used == t
    &&& t < old_staged.len() ==> {
        &&& new_handles == old_handles
        &&& new_staged == old_staged.update(t as int, old_staged[t as int] + kept)
        &&& r matches Some((h, s, e)) && cloned(old_handles[t as int], h) && s
            == old_staged[t as int].len() && e == s + n
    }
    &&& t >= old_staged.len() ==> {
        &&& t == old_staged.len()
        &&& exists|v: Vec<u8>, o: Option<B>|
            {
                &&& v@ == padded(kept, capacity)
                &&& call_ensures(*create, (v,), o)
                &&& o is None ==> r is None && new_staged == old_staged && new_handles
                    == old_handles
                &&& o matches Some(b) ==> {
                    &&& new_staged == old_staged.push(kept)
                    &&& new_handles == old_handles.push(b)
                    &&& r matches Some((h, s, e)) && cloned(b, h) && s == 0 && e == n
                }
            }
    }
}

/// One of the staging buffers, whose GPU buffer `range.0` is a clone of,
/// holds `bytes` at the byte range `range.1..range.2`.
pub open spec fn staged_at<B: Clone>(
    staged: Seq<Seq<u8>>,
    handles: Seq<B>,
    range: (B, u32, u32),
    bytes: Seq<u8>,
) -> bool {
    exists|t: int|
        #![trigger staged[t], handles[t]]
        {
            &&& 0 <= t < staged.len()
            &&& t < handles.len()
            &&& cloned(handles[t], range.0)
            &&& range.1 <= range.2 <= staged[t].len()
            &&& staged[t].subrange(range.1 as int, range.2 as int) == bytes
        }
}

/// A collect only appends to staging buffers and adds GPU buffers, so
/// what was staged stays where it was.
proof fn lemma_collect_keeps_staged<B: Clone, F: Fn(Vec<u8>) -> Option<B>>(
    old_staged: Seq<Seq<u8>>,
    old_handles: Seq<B>,
    old_used: nat,
    capacity: nat,
    data: Seq<u8>,
    bytes_per_instance: nat,
    create: &F,
    new_staged: Seq<Seq<u8>>,
    new_handles: Seq<B>,
    new_used: nat,
    r: Option<(B, u32, u32)>,
    range: (B, u32, u32),
    bytes: Seq<u8>,
)
    requires
        collect_post(
            old_staged,
            old_handles,
            old_used,
            capacity,
            data,
            bytes_per_instance,
            create,
            new_staged,
            new_handles,
            new_used,
            r,
        ),
        staged_at(old_staged, old_handles, range, bytes),
    ensures
        staged_at(new_staged, new_handles, range, bytes),
{
    let t = choose|t: int|
        #![trigger old_staged[t], old_handles[t]]
        {
            &&& 0 <= t < old_staged.len()
            &&& t < old_handles.len()
            &&& cloned(old_handles[t], range.0)
            &&& range.1 <= range.2 <= old_staged[t].len()
            &&& old_staged[t].subrange(range.1 as int, range.2 as int) == bytes
        };
    let n = kept_len(capacity, data.len(), bytes_per_instance);
    let kept = data.take(n as int);
    let u = target_index(old_staged, old_used, capacity, n);
    if u < old_staged.len() {
        if t == u {
            assert(new_staged[t] == old_staged[t] + kept);
            assert(new_staged[t].subrange(range.1 as int, range.2 as int) =~= old_staged[t].subrange(
                range.1 as int,
                range.2 as int,
            ));
        } else {
            assert(new_staged[t] == old_staged[t]);
        }
        assert(new_handles[t] == old_handles[t]);
    } else {
        let (v, o) = choose|v: Vec<u8>, o: Option<B>|
            {
                &&& v@ == padded(kept, capacity)
                &&& call_ensures(*create, (v,), o)
                &&& o is None ==> r is None && new_staged == old_staged && new_handles
                    == old_handles
                &&& o matches Some(b) ==> {
                    &&& new_staged == old_staged.push(kept)
                    &&& new_handles == old_handles.push(b)
                    &&& r matches Some((h, s, e)) && cloned(b, h) && s == 0 && e == n
                }
            };
        if o is Some {
            assert(new_staged[t] == old_staged[t]);
            assert(new_handles[t] == old_handles[t]);
        }
    }
    assert(new_staged[t] == new_staged[t] && new_handles[t] == new_handles[t]);
}

/// A collect fails only when it asked `create` for a new buffer, with the
/// kept bytes padded to the capacity, and got none.
proof fn lemma_collect_none<B: Clone, F: Fn(Vec<u8>) -> Option<B>>(
    old_staged: Seq<Seq<u8>>,
    old_handles: Seq<B>,
    old_used: nat,
    capacity: nat,
    data: Seq<u8>,
    bytes_per_instance: nat,
    create: &F,
    new_staged: Seq<Seq<u8>>,
    new_handles: Seq<B>,
    new_used: nat,
    r: Option<(B, u32, u32)>,
)
    requires
        collect_post(
            old_staged,
            old_handles,
            old_used,
            capacity,
            data,
            bytes_per_instance,
            create,
            new_staged,
            new_handles,
            new_used,
            r,
        ),
        r is None,
    ensures
        exists|v: Vec<u8>|
            v@ == padded(data.take(kept_len(capacity, data.len(), bytes_per_instance) as int), capacity)
                && #[trigger] call_ensures(*create, (v,), None::<B>),
{
    let n = kept_len(capacity, data.len(), bytes_per_instance);
    let kept = data.take(n as int);
    let (v, o) = choose|v: Vec<u8>, o: Option<B>|
        {
            &&& v@ == padded(kept, capacity)
            &&& call_ensures(*create, (v,), o)
            &&& o is None ==> r is None && new_staged == old_staged && new_handles == old_handles
            &&& o matches Some(b) ==> {
                &&& new_staged == old_staged.push(kept)
                &&& new_handles == old_handles.push(b)
                &&& r matches Some((h, s, e)) && cloned(b, h) && s == 0 && e == n
            }
        };
    assert(o is None);
    assert(call_ensures(*create, (v,), None::<B>));
}

/// The range that a collect returns holds the kept bytes of the mesh.
proof fn lemma_collect_stages<B: Clone, F: Fn(Vec<u8>) -> Option<B>>(
    old_staged: Seq<Seq<u8>>,
    old_handles: Seq<B>,
    old_used: nat,
    capacity: nat,
    data: Seq<u8>,
    bytes_per_instance: nat,
    create: &F,
    new_staged: Seq<Seq<u8>>,
    new_handles: Seq<B>,
    new_used: nat,
    r: Option<(B, u32, u32)>,
)
    requires
        collect_post(
            old_staged,
            old_handles,
            old_used,
            capacity,
            data,
            bytes_per_instance,
            create,
            new_staged,
            new_handles,
            new_used,
            r,
        ),
        old_handles.len() == old_staged.len(),
    ensures
        r matches Some(range) ==> {
            &&& range.2 == range.1 + kept_len(capacity, data.len(), bytes_per_instance)
            &&& staged_at(
                new_staged,
                new_handles,
                range,
                data.take(kept_len(capacity, data.len(), bytes_per_instance) as int),
            )
        },
{
    let n = kept_len(capacity, data.len(), bytes_per_instance);
    let kept = data.take(n as int);
    let u = target_index(old_staged, old_used, capacity, n);
    if r is Some {
        let range = r.unwrap();
        if u < old_staged.len() {
            let t = u as int;
            assert(new_staged[t] == old_staged[t] + kept);
            assert(new_staged[t].subrange(range.1 as int, range.2 as int) =~= kept);
            assert(new_handles[t] == old_handles[t]);
        } else {
            let (v, o) = choose|v: Vec<u8>, o: Option<B>|
                {
                    &&& v@ == padded(kept, capacity)
                    &&& call_ensures(*create, (v,), o)
                    &&& o is None ==> r is None && new_staged == old_staged && new_handles
                        == old_handles
                    &&& o matches Some(b) ==> {
                        &&& new_staged == old_staged.push(kept)
                        &&& new_handles == old_handles.push(b)
                        &&& r matches Some((h, s, e)) && cloned(b, h) && s == 0 && e == n
                    }
                };
            let t = old_staged.len() as int;
            assert(new_staged[t] == kept);
            assert(new_staged[t].subrange(range.1 as int, range.2 as int) =~= kept);
            assert(new_handles[t] == o.unwrap());
        }
    }
}

fn append_prefix(dst: &mut Vec<u8>, data: &[u8], n: usize)
    requires
        n <= data@.len(),
    ensures
        final(dst)@ == old(dst)@ + data@.take(n as int),
{
    let mut i: usize = 0;
    while i < n
        invariant
            i <= n,
            n <= data@.len(),
            dst@ == old(dst)@ + data@.take(i as int),
        decreases n - i,
    {
        dst.push(data[i]);
        assert(data@.take(i + 1) == data@.take(i as int).push(data@[i as int]));
        i = i + 1;
    }
}

fn push_zeros(dst: &mut Vec<u8>, count: usize)
    ensures
        final(dst)@ == old(dst)@ + Seq::new(count as nat, |i: int| 0u8),
{
    let mut i: usize = 0;
    while i < count
        invariant
            i <= count,
            dst@ == old(dst)@ + Seq::new(i as nat, |j: int| 0u8),
        decreases count - i,
    {
        dst.push(0u8);
        assert(Seq::new((i + 1) as nat, |j: int| 0u8) =~= Seq::new(i as nat, |j: int| 0u8).push(
            0u8,
        ));
        i = i + 1;
    }
}

/// Shared body of both allocators' `collect`.
fn collect_into<B: Clone, F: Fn(Vec<u8>) -> Option<B>>(
    list: &mut Vec<InstanceCacheBuffer<B>>,
    used_index: &mut usize,
    capacity: u32,
    data: &[u8],
    bytes_per_instance: u32,
    create: &F,
) -> (r: Option<(B, u32, u32)>)
    requires
        bytes_per_instance > 0,
        list_wf(old(list)@, *old(used_index) as nat, capacity as nat),
        forall|v: Vec<u8>| call_requires(*create, (v,)),
    ensures
        list_wf(final(list)@, *final(used_index) as nat, capacity as nat),
        collect_post(
            staged_of(old(list)@),
            handles_of(old(list)@),
            *old(used_index) as nat,
            capacity as nat,
            data@,
            bytes_per_instance as nat,
            create,
            staged_of(final(list)@),
            handles_of(final(list)@),
            *final(used_index) as nat,
            r,
        ),
{
    let ghost old_list = list@;
    let ghost old_used = *used_index as nat;
    let max_count = capacity / bytes_per_instance;
    assert(max_count * bytes_per_instance <= capacity) by (nonlinear_arith)
        requires
            max_count == capacity / bytes_per_instance,
            bytes_per_instance > 0,
    ;
    let max_bytes = (max_count * bytes_per_instance) as usize;
    let byte_size = if data.len() < max_bytes {
        data.len()
    } else {
        max_bytes
    };
    let ghost n = byte_size as nat;
    assert(n == kept_len(capacity as nat, data@.len(), bytes_per_instance as nat));
    let ghost kept = data@.take(n as int);
    let ghost t = target_index(staged_of(old_list), old_used, capacity as nat, n);

    if *used_index < list.len() {
        let len = list[*used_index].vertices.len();
        if byte_size > capacity as usize - len {
            *used_index = *used_index + 1;
        }
    }
    assert(*used_index as nat == t);
    if *used_index < list.len() {
        let idx = *used_index;
        let start = list[idx].vertices.len();
        append_prefix(&mut list[idx].vertices, data, byte_size);
        let end = list[idx].vertices.len();
        let handle = list[idx].buffer.0.clone();
        proof {
            assert(staged_of(list@) =~= staged_of(old_list).update(
                t as int,
                staged_of(old_list)[t as int] + kept,
            ));
            assert(handles_of(list@) =~= handles_of(old_list));
        }
        Some((handle, start as u32, end as u32))
    } else {
        let mut initial: Vec<u8> = Vec::with_capacity(capacity as usize);
        append_prefix(&mut initial, data, byte_size);
        let vertices = initial.clone();
        assert(vertices@ =~= kept);
        push_zeros(&mut initial, capacity as usize - byte_size);
        assert(initial@ =~= padded(kept, capacity as nat));
        let ghost passed = initial;
        let created = create(initial);
        match created {
            Some(buffer) => {
                let ghost b = buffer;
                list.push(InstanceCacheBuffer { vertices, buffer: (buffer, 0, capacity) });
                let idx = *used_index;
                let handle = list[idx].buffer.0.clone();
                let len = list[idx].vertices.len();
                proof {
                    assert(staged_of(list@) =~= staged_of(old_list).push(kept));
                    assert(handles_of(list@) =~= handles_of(old_list).push(b));
                    assert(call_ensures(*create, (passed,), Some(b)));
                }
                Some((handle, 0, len as u32))
            },
            None => {
                proof {
                    assert(call_ensures(*create, (passed,), None::<B>));
                }
                None
            },
        }
    }
}

/// Shared body of both allocators' `upload`: takes the bytes of every
/// buffer up to the one in use, padded by `pad` to a multiple of 4 when
/// asked, and empties them.
fn drain_into<B: Clone>(
    list: &mut Vec<InstanceCacheBuffer<B>>,
    used_index: &mut usize,
    capacity: u32,
    align4: bool,
) -> (writes: Vec<(B, Vec<u8>)>)
    requires
        list_wf(old(list)@, *old(used_index) as nat, capacity as nat),
    ensures
        list_wf(final(list)@, *final(used_index) as nat, capacity as nat),
        *final(used_index) == 0,
        handles_of(final(list)@) == handles_of(old(list)@),
        staged_of(final(list)@) == Seq::new(old(list)@.len(), |i: int| Seq::<u8>::empty()),
        writes_match(
            writes@,
            handles_of(old(list)@),
            staged_of(old(list)@),
            nonempty_indices(staged_of(old(list)@), old(list)@.len() as int),
            align4,
        ),
{
    let ghost old_list = list@;
    let ghost staged = staged_of(old_list);
    let ghost handles = handles_of(old_list);
    let bound = if *used_index < list.len() {
        *used_index + 1
    } else {
        list.len()
    };
    let mut writes: Vec<(B, Vec<u8>)> = Vec::new();
    let mut idx: usize = 0;
    proof {
        lemma_nonempty_indices(staged, 0);
    }
    while idx < bound
        invariant
            bound <= list@.len(),
            list@.len() == old_list.len(),
            bound as int == if *used_index < old_list.len() {
                *used_index + 1
            } else {
                old_list.len() as int
            },
            list_wf(old_list, *used_index as nat, capacity as nat),
            staged == staged_of(old_list),
            handles == handles_of(old_list),
            0 <= idx <= bound,
            handles_of(list@) == handles,
            forall|i: int| 0 <= i < list@.len() ==> (#[trigger] list@[i]).buffer == old_list[i].buffer,
            forall|i: int|
                0 <= i < list@.len() ==> (#[trigger] list@[i]).vertices@ == if i < idx {
                    Seq::<u8>::empty()
                } else {
                    old_list[i].vertices@
                },
            writes_match(writes@, handles, staged, nonempty_indices(staged, idx as int), align4),
        decreases bound - idx,
    {
        let ghost ix_old = nonempty_indices(staged, idx as int);
        let ghost writes_old = writes@;
        let mut taken: Vec<u8> = Vec::new();
        std::mem::swap(&mut taken, &mut list[idx].vertices);
        assert(taken@ == staged[idx as int]);
        if align4 {
            let len = taken.len();
            if len % 4 != 0 {
                push_zeros(&mut taken, 4 - len % 4);
            }
            assert(taken@ == pad4(staged[idx as int]));
        }
        let ghost expected = if align4 {
            pad4(staged[idx as int])
        } else {
            staged[idx as int]
        };
        assert(taken@ == expected);
        if taken.len() > 0 {
            let handle = list[idx].buffer.0.clone();
            assert(cloned(handles[idx as int], handle));
            writes.push((handle, taken));
            assert(cloned(handles[idx as int], writes@[writes_old.len() as int].0));
            assert(writes@[writes_old.len() as int].1@ == expected);
        }
        proof {
            assert(taken@.len() > 0 <==> staged[idx as int].len() > 0);
            let ix = nonempty_indices(staged, idx + 1);
            assert(ix == if staged[idx as int].len() > 0 {
                ix_old.push(idx as int)
            } else {
                ix_old
            });
            assert forall|j: int| 0 <= j < ix.len() implies write_matches(
                #[trigger] writes@[j],
                handles[ix[j]],
                staged[ix[j]],
                align4,
            ) by {
                if j < ix_old.len() {
                    assert(writes@[j] == writes_old[j]);
                    assert(ix[j] == ix_old[j]);
                } else {
                    assert(ix[j] == idx);
                }
            }
        }
        idx = idx + 1;
    }
    proof {
        assert forall|i: int| bound <= i < old_list.len() implies staged[i].len() == 0 by {
            let _ = old_list[i];
        }
        lemma_nonempty_tail(staged, bound as int, old_list.len() as int);
        lemma_nonempty_indices(staged, old_list.len() as int);
    }
    *used_index = 0;
    proof {
        assert forall|i: int| 0 <= i < list@.len() implies (#[trigger] list@[i]).vertices@ =~= Seq::<
            u8,
        >::empty() by {
            let _ = old_list[i];
        }
        assert(staged_of(list@) =~= Seq::new(old_list.len(), |i: int| Seq::<u8>::empty()));
        assert(handles_of(list@) =~= handles);
        assert forall|i: int| 0 <= i < list@.len() implies {
            &&& (#[trigger] list@[i]).buffer.1 == 0
            &&& list@[i].buffer.2 == capacity
            &&& list@[i].vertices@.len() <= capacity
            &&& i > 0 ==> list@[i].vertices@.len() == 0
        } by {
            assert(old_list[i].buffer.1 == 0);
        }
    }
    writes
}

/// Empty buffers past `k` add no index.
proof fn lemma_nonempty_tail(staged: Seq<Seq<u8>>, k: int, m: int)
    requires
        0 <= k <= m <= staged.len(),
        forall|i: int| k <= i < m ==> staged[i].len() == 0,
    ensures
        nonempty_indices(staged, m) == nonempty_indices(staged, k),
    decreases m - k,
{
    if m > k {
        lemma_nonempty_tail(staged, k, m - 1);
    }
}


/// Facts that hold of every well-formed staging list.
proof fn lemma_list_wf_facts<B>(list: Seq<InstanceCacheBuffer<B>>, used: nat, capacity: nat)
    requires
        list_wf(list, used, capacity),
    ensures
        forall|i: int| 0 <= i < list.len() ==> (#[trigger] staged_of(list)[i]).len() <= capacity,
        forall|i: int| used < i < list.len() ==> (#[trigger] staged_of(list)[i]).len() == 0,
        staged_of(list).len() == list.len(),
        handles_of(list).len() == list.len(),
{
    assert forall|i: int| 0 <= i < list.len() implies (#[trigger] staged_of(list)[i]).len()
        <= capacity by {
        let _ = list[i];
    }
    assert forall|i: int| used < i < list.len() implies (#[trigger] staged_of(list)[i]).len()
        == 0 by {
        let _ = list[i];
    }
}

/// Staging of vertex bytes. Between two uploads, the buffers before the one in
/// use are closed, the one in use receives the next meshes, and the ones
/// after it are empty.
pub struct SpineVertexBufferAllocator<B> {
    list: Vec<InstanceCacheBuffer<B>>,
    used_index: usize,
    /// Capacity in bytes of every staging buffer; what one mesh brings
    /// beyond it is cut off.
    one_mesh_max_instance_bytes: u32,
}

impl<B: Clone> SpineVertexBufferAllocator<B> {
    /// The staging lists are consistent (see the allocator's doc).
    pub closed spec fn wf(&self) -> bool {
        list_wf(self.list@, self.used_index as nat, self.one_mesh_max_instance_bytes as nat)
    }

    /// Capacity in bytes of every staging buffer.
    pub closed spec fn capacity(&self) -> nat {
        self.one_mesh_max_instance_bytes as nat
    }

    /// Index of the staging buffer in use.
    pub closed spec fn used_index(&self) -> nat {
        self.used_index as nat
    }

    /// Bytes gathered in each staging buffer since the last upload.
    pub closed spec fn staged(&self) -> Seq<Seq<u8>> {
        staged_of(self.list@)
    }

    /// GPU buffer behind each staging buffer.
    pub closed spec fn handles(&self) -> Seq<B> {
        handles_of(self.list@)
    }

    pub fn new(one_mesh_max_instance_bytes: u32) -> (r: Self)
        ensures
            r.wf(),
            r.capacity() == one_mesh_max_instance_bytes,
            r.used_index() == 0,
            r.staged() == Seq::<Seq<u8>>::empty(),
            r.handles() == Seq::<B>::empty(),
    {
        let r = SpineVertexBufferAllocator { list: Vec::new(), used_index: 0, one_mesh_max_instance_bytes };
        assert(staged_of(r.list@) =~= Seq::<Seq<u8>>::empty());
        assert(handles_of(r.list@) =~= Seq::<B>::empty());
        r
    }

    /// The first GPU buffer, at the range 0..0.
    pub fn instance_initial_buffer(&self) -> (r: (B, u32, u32))
        requires
            self.handles().len() > 0,
        ensures
            cloned(self.handles()[0], r.0),
            r.1 == 0,
            r.2 == 0,
    {
        (self.list[0].buffer.0.clone(), 0, 0)
    }

    /// Appends the first bytes of `data` (as many whole instances of
    /// `bytes_per_instance` bytes as fit one buffer) to the staging buffer
    /// in use, or to the next one when they do not fit; when the list has
    /// no such buffer, `create` receives the initial contents of a new one
    /// (the kept bytes, then zeros up to the capacity) and returns its GPU
    /// buffer, or `None` when it could not make one. Returns the GPU buffer
    /// and the byte range that the kept bytes take in it.
    pub fn collect<F: Fn(Vec<u8>) -> Option<B>>(
        &mut self,
        data: &[u8],
        bytes_per_instance: u32,
        create: &F,
    ) -> (r: Option<(B, u32, u32)>)
        requires
            old(self).wf(),
            bytes_per_instance > 0,
            forall|v: Vec<u8>| call_requires(*create, (v,)),
        ensures
            final(self).wf(),
            final(self).capacity() == old(self).capacity(),
            collect_post(
                old(self).staged(),
                old(self).handles(),
                old(self).used_index(),
                old(self).capacity(),
                data@,
                bytes_per_instance as nat,
                create,
                final(self).staged(),
                final(self).handles(),
                final(self).used_index(),
                r,
            ),
            r matches Some((h, s, e)) ==> s <= e <= old(self).capacity(),
            r matches Some(range) ==> {
                &&& range.2 == range.1 + kept_len(
                    old(self).capacity(),
                    data@.len(),
                    bytes_per_instance as nat,
                )
                &&& staged_at(
                    final(self).staged(),
                    final(self).handles(),
                    range,
                    data@.take(
                        kept_len(old(self).capacity(), data@.len(), bytes_per_instance as nat) as int,
                    ),
                )
            },
            forall|range: (B, u32, u32), bytes: Seq<u8>|
                staged_at(old(self).staged(), old(self).handles(), range, bytes) ==> #[trigger] staged_at(
                    final(self).staged(),
                    final(self).handles(),
                    range,
                    bytes,
                ),
            r is None ==> exists|v: Vec<u8>|
                v@ == padded(
                    data@.take(
                        kept_len(old(self).capacity(), data@.len(), bytes_per_instance as nat) as int,
                    ),
                    old(self).capacity(),
                ) && #[trigger] call_ensures(*create, (v,), None::<B>),
    {
        proof {
            lemma_list_wf_facts(self.list@, self.used_index as nat, self.one_mesh_max_instance_bytes as nat);
        }
        let r = collect_into(
            &mut self.list,
            &mut self.used_index,
            self.one_mesh_max_instance_bytes,
            data,
            bytes_per_instance,
            create,
        );
        proof {
            lemma_list_wf_facts(self.list@, self.used_index as nat, self.one_mesh_max_instance_bytes as nat);
            let t = self.used_index as int;
            if t < old(self).staged().len() {
                assert(self.staged()[t].len() <= self.capacity());
            } else if r is Some {
                assert(self.staged()[t].len() <= self.capacity());
            }
            lemma_list_wf_facts(old(self).list@, old(self).used_index as nat, old(self).capacity());
            if r is None {
                lemma_collect_none(
                    old(self).staged(),
                    old(self).handles(),
                    old(self).used_index(),
                    old(self).capacity(),
                    data@,
                    bytes_per_instance as nat,
                    create,
                    self.staged(),
                    self.handles(),
                    self.used_index(),
                    r,
                );
            }
            lemma_collect_stages(
                old(self).staged(),
                old(self).handles(),
                old(self).used_index(),
                old(self).capacity(),
                data@,
                bytes_per_instance as nat,
                create,
                self.staged(),
                self.handles(),
                self.used_index(),
                r,
            );
            assert forall|range: (B, u32, u32), bytes: Seq<u8>|
                staged_at(old(self).staged(), old(self).handles(), range, bytes) implies #[trigger] staged_at(
                    self.staged(),
                    self.handles(),
                    range,
                    bytes,
                ) by {
                lemma_collect_keeps_staged(
                    old(self).staged(),
                    old(self).handles(),
                    old(self).used_index(),
                    old(self).capacity(),
                    data@,
                    bytes_per_instance as nat,
                    create,
                    self.staged(),
                    self.handles(),
                    self.used_index(),
                    r,
                    range,
                    bytes,
                );
            }
        }
        r
    }

    /// Hands over the bytes gathered in every staging buffer up to the one
    /// in use, each with the GPU buffer that receives it, and
    /// starts over from the first buffer with all of them empty.
    pub fn upload(&mut self) -> (writes: Vec<(B, Vec<u8>)>)
        requires
            old(self).wf(),
        ensures
            final(self).wf(),
            final(self).capacity() == old(self).capacity(),
            final(self).used_index() == 0,
            final(self).handles() == old(self).handles(),
            final(self).staged() == Seq::new(old(self).staged().len(), |i: int| Seq::<u8>::empty()),
            writes_match(
                writes@,
                old(self).handles(),
                old(self).staged(),
                nonempty_indices(old(self).staged(), old(self).staged().len() as int),
                false,
            ),
    {
        proof {
            lemma_list_wf_facts(self.list@, self.used_index as nat, self.one_mesh_max_instance_bytes as nat);
        }
        drain_into(&mut self.list, &mut self.used_index, self.one_mesh_max_instance_bytes, false)
    }
}

/// Staging of index bytes; as [`SpineVertexBufferAllocator`], but each upload
/// pads the bytes of a buffer to a multiple of 4.
pub struct SpineIndicesBufferAllocator<B> {
    list: Vec<InstanceCacheBuffer<B>>,
    used_index: usize,
    /// Capacity in bytes of every staging buffer; what one mesh brings
    /// beyond it is cut off.
    one_mesh_max_instance_bytes: u32,
}

impl<B: Clone> SpineIndicesBufferAllocator<B> {
    /// The staging lists are consistent (see the allocator's doc).
    pub closed spec fn wf(&self) -> bool {
        list_wf(self.list@, self.used_index as nat, self.one_mesh_max_instance_bytes as nat)
    }

    /// Capacity in bytes of every staging buffer.
    pub closed spec fn capacity(&self) -> nat {
        self.one_mesh_max_instance_bytes as nat
    }

    /// Index of the staging buffer in use.
    pub closed spec fn used_index(&self) -> nat {
        self.used_index as nat
    }

    /// Bytes gathered in each staging buffer since the last upload.
    pub closed spec fn staged(&self) -> Seq<Seq<u8>> {
        staged_of(self.list@)
    }

    /// GPU buffer behind each staging buffer.
    pub closed spec fn handles(&self) -> Seq<B> {
        handles_of(self.list@)
    }

    pub fn new(one_mesh_max_instance_bytes: u32) -> (r: Self)
        ensures
            r.wf(),
            r.capacity() == one_mesh_max_instance_bytes,
            r.used_index() == 0,
            r.staged() == Seq::<Seq<u8>>::empty(),
            r.handles() == Seq::<B>::empty(),
    {
        let r = SpineIndicesBufferAllocator { list: Vec::new(), used_index: 0, one_mesh_max_instance_bytes };
        assert(staged_of(r.list@) =~= Seq::<Seq<u8>>::empty());
        assert(handles_of(r.list@) =~= Seq::<B>::empty());
        r
    }

    /// The first GPU buffer, at the range 0..0.
    pub fn instance_initial_buffer(&self) -> (r: (B, u32, u32))
        requires
            self.handles().len() > 0,
        ensures
            cloned(self.handles()[0], r.0),
            r.1 == 0,
            r.2 == 0,
    {
        (self.list[0].buffer.0.clone(), 0, 0)
    }

    /// Appends the first bytes of `data` (as many whole instances of
    /// `bytes_per_instance` bytes as fit one buffer) to the staging buffer
    /// in use, or to the next one when they do not fit; when the list has
    /// no such buffer, `create` receives the initial contents of a new one
    /// (the kept bytes, then zeros up to the capacity) and returns its GPU
    /// buffer, or `None` when it could not make one. Returns the GPU buffer
    /// and the byte range that the kept bytes take in it.
    pub fn collect<F: Fn(Vec<u8>) -> Option<B>>(
        &mut self,
        data: &[u8],
        bytes_per_instance: u32,
        create: &F,
    ) -> (r: Option<(B, u32, u32)>)
        requires
            old(self).wf(),
            bytes_per_instance > 0,
            forall|v: Vec<u8>| call_requires(*create, (v,)),
        ensures
            final(self).wf(),
            final(self).capacity() == old(self).capacity(),
            collect_post(
                old(self).staged(),
                old(self).handles(),
                old(self).used_index(),
                old(self).capacity(),
                data@,
                bytes_per_instance as nat,
                create,
                final(self).staged(),
                final(self).handles(),
                final(self).used_index(),
                r,
            ),
            r matches Some((h, s, e)) ==> s <= e <= old(self).capacity(),
            r matches Some(range) ==> {
                &&& range.2 == range.1 + kept_len(
                    old(self).capacity(),
                    data@.len(),
                    bytes_per_instance as nat,
                )
                &&& staged_at(
                    final(self).staged(),
                    final(self).handles(),
                    range,
                    data@.take(
                        kept_len(old(self).capacity(), data@.len(), bytes_per_instance as nat) as int,
                    ),
                )
            },
            forall|range: (B, u32, u32), bytes: Seq<u8>|
                staged_at(old(self).staged(), old(self).handles(), range, bytes) ==> #[trigger] staged_at(
                    final(self).staged(),
                    final(self).handles(),
                    range,
                    bytes,
                ),
            r is None ==> exists|v: Vec<u8>|
                v@ == padded(
                    data@.take(
                        kept_len(old(self).capacity(), data@.len(), bytes_per_instance as nat) as int,
                    ),
                    old(self).capacity(),
                ) && #[trigger] call_ensures(*create, (v,), None::<B>),
    {
        proof {
            lemma_list_wf_facts(self.list@, self.used_index as nat, self.one_mesh_max_instance_bytes as nat);
        }
        let r = collect_into(
            &mut self.list,
            &mut self.used_index,
            self.one_mesh_max_instance_bytes,
            data,
            bytes_per_instance,
            create,
        );
        proof {
            lemma_list_wf_facts(self.list@, self.used_index as nat, self.one_mesh_max_instance_bytes as nat);
            let t = self.used_index as int;
            if t < old(self).staged().len() {
                assert(self.staged()[t].len() <= self.capacity());
            } else if r is Some {
                assert(self.staged()[t].len() <= self.capacity());
            }
            lemma_list_wf_facts(old(self).list@, old(self).used_index as nat, old(self).capacity());
            if r is None {
                lemma_collect_none(
                    old(self).staged(),
                    old(self).handles(),
                    old(self).used_index(),
                    old(self).capacity(),
                    data@,
                    bytes_per_instance as nat,
                    create,
                    self.staged(),
                    self.handles(),
                    self.used_index(),
                    r,
                );
            }
            lemma_collect_stages(
                old(self).staged(),
                old(self).handles(),
                old(self).used_index(),
                old(self).capacity(),
                data@,
                bytes_per_instance as nat,
                create,
                self.staged(),
                self.handles(),
                self.used_index(),
                r,
            );
            assert forall|range: (B, u32, u32), bytes: Seq<u8>|
                staged_at(old(self).staged(), old(self).handles(), range, bytes) implies #[trigger] staged_at(
                    self.staged(),
                    self.handles(),
                    range,
                    bytes,
                ) by {
                lemma_collect_keeps_staged(
                    old(self).staged(),
                    old(self).handles(),
                    old(self).used_index(),
                    old(self).capacity(),
                    data@,
                    bytes_per_instance as nat,
                    create,
                    self.staged(),
                    self.handles(),
                    self.used_index(),
                    r,
                    range,
                    bytes,
                );
            }
        }
        r
    }

    /// Hands over the bytes gathered in every staging buffer up to the one
    /// in use, padded with zeros to a multiple of 4 bytes, each with the GPU buffer that receives it, and
    /// starts over from the first buffer with all of them empty.
    pub fn upload(&mut self) -> (writes: Vec<(B, Vec<u8>)>)
        requires
            old(self).wf(),
        ensures
            final(self).wf(),
            final(self).capacity() == old(self).capacity(),
            final(self).used_index() == 0,
            final(self).handles() == old(self).handles(),
            final(self).staged() == Seq::new(old(self).staged().len(), |i: int| Seq::<u8>::empty()),
            writes_match(
                writes@,
                old(self).handles(),
                old(self).staged(),
                nonempty_indices(old(self).staged(), old(self).staged().len() as int),
                true,
            ),
    {
        proof {
            lemma_list_wf_facts(self.list@, self.used_index as nat, self.one_mesh_max_instance_bytes as nat);
        }
        drain_into(&mut self.list, &mut self.used_index, self.one_mesh_max_instance_bytes, true)
    }
}

/// The kept part of a mesh never exceeds the capacity.
proof fn lemma_kept_len_bounds(capacity: nat, data_len: nat, bytes_per_instance: nat)
    requires
        bytes_per_instance > 0,
    ensures
        kept_len(capacity, data_len, bytes_per_instance) <= capacity,
        kept_len(capacity, data_len, bytes_per_instance) <= data_len,
{
    assert((capacity / bytes_per_instance) * bytes_per_instance <= capacity) by (nonlinear_arith)
        requires
            bytes_per_instance > 0,
    ;
}

/// What a collect stages is what the next upload writes: a mesh collected
/// into staging buffers that an upload has just emptied goes, cut to its
/// kept length, to the start of the first buffer, and the next upload
/// writes exactly those bytes to that buffer, and nothing else.
pub proof fn lemma_collect_then_upload<B: Clone, F: Fn(Vec<u8>) -> Option<B>>(
    staged0: Seq<Seq<u8>>,
    handles0: Seq<B>,
    capacity: nat,
    data: Seq<u8>,
    bytes_per_instance: nat,
    create: &F,
    staged1: Seq<Seq<u8>>,
    handles1: Seq<B>,
    used1: nat,
    r: Option<(B, u32, u32)>,
    writes: Seq<(B, Vec<u8>)>,
)
    requires
        bytes_per_instance > 0,
        staged0.len() > 0,
        forall|i: int| 0 <= i < staged0.len() ==> (#[trigger] staged0[i]).len() == 0,
        collect_post(
            staged0,
            handles0,
            0,
            capacity,
            data,
            bytes_per_instance,
            create,
            staged1,
            handles1,
            used1,
            r,
        ),
        writes_match(writes, handles1, staged1, nonempty_indices(staged1, staged1.len() as int), false),
    ensures
        r matches Some((h, s, e)) && s == 0 && e == kept_len(capacity, data.len(), bytes_per_instance)
            && cloned(handles0[0], h),
        kept_len(capacity, data.len(), bytes_per_instance) > 0 ==> {
            &&& writes.len() == 1
            &&& writes[0].1@ == data.take(kept_len(capacity, data.len(), bytes_per_instance) as int)
            &&& cloned(handles0[0], writes[0].0)
        },
        kept_len(capacity, data.len(), bytes_per_instance) == 0 ==> writes.len() == 0,
{
    let n = kept_len(capacity, data.len(), bytes_per_instance);
    lemma_kept_len_bounds(capacity, data.len(), bytes_per_instance);
    assert(staged0[0].len() == 0);
    assert(target_index(staged0, 0, capacity, n) == 0);
    let kept = data.take(n as int);
    assert(staged1 == staged0.update(0, staged0[0] + kept));
    assert(staged1[0] =~= kept);
    assert forall|i: int| 1 <= i < staged1.len() implies staged1[i].len() == 0 by {
        assert(staged1[i] == staged0[i]);
    }
    lemma_nonempty_tail(staged1, 1, staged1.len() as int);
    let ix = nonempty_indices(staged1, staged1.len() as int);
    assert(nonempty_indices(staged1, 0) =~= Seq::<int>::empty());
    if n > 0 {
        assert(ix =~= seq![0int]);
        assert(write_matches(writes[0], handles1[0], staged1[0], false));
    } else {
        assert(ix =~= Seq::<int>::empty());
    }
}

/// When the capacity is a multiple of 4, every write of an index upload
/// fits its buffer, padding included.
pub proof fn lemma_index_writes_fit<B: Clone>(
    allocator: SpineIndicesBufferAllocator<B>,
    writes: Seq<(B, Vec<u8>)>,
)
    requires
        allocator.wf(),
        allocator.capacity() % 4 == 0,
        writes_match(
            writes,
            allocator.handles(),
            allocator.staged(),
            nonempty_indices(allocator.staged(), allocator.staged().len() as int),
            true,
        ),
    ensures
        forall|j: int| 0 <= j < writes.len() ==> (#[trigger] writes[j]).1@.len() <= allocator.capacity(),
{
    let staged = allocator.staged();
    let cap = allocator.capacity();
    let ix = nonempty_indices(staged, staged.len() as int);
    lemma_list_wf_facts(allocator.list@, allocator.used_index as nat, cap);
    lemma_nonempty_indices(staged, staged.len() as int);
    assert forall|j: int| 0 <= j < writes.len() implies (#[trigger] writes[j]).1@.len() <= cap by {
        assert(write_matches(writes[j], allocator.handles()[ix[j]], staged[ix[j]], true));
        let len = staged[ix[j]].len();
        assert(len <= cap);
        lemma_pad4_fits(len, cap);
    }
}

proof fn lemma_pad4_fits(len: nat, cap: nat)
    requires
        len <= cap,
        cap % 4 == 0,
    ensures
        len % 4 != 0 ==> len + (4 - len % 4) <= cap,
{
    assert(len % 4 != 0 ==> len + (4 - len % 4) <= cap) by (nonlinear_arith)
        requires
            len <= cap,
            cap % 4 == 0,
    ;
}

/// Every non-empty staging buffer among the first `k` has its index listed.
proof fn lemma_nonempty_indices_complete(staged: Seq<Seq<u8>>, k: int, t: int)
    requires
        0 <= t < k <= staged.len(),
        staged[t].len() > 0,
    ensures
        exists|j: int|
            0 <= j < nonempty_indices(staged, k).len() && #[trigger] nonempty_indices(staged, k)[j]
                == t,
    decreases k,
{
    let r = nonempty_indices(staged, k);
    if t == k - 1 {
        let p = nonempty_indices(staged, k - 1);
        assert(r == p.push(k - 1));
        assert(r[p.len() as int] == t);
    } else {
        lemma_nonempty_indices_complete(staged, k - 1, t);
        let p = nonempty_indices(staged, k - 1);
        let j = choose|j: int| 0 <= j < p.len() && #[trigger] p[j] == t;
        if staged[k - 1].len() > 0 {
            assert(r == p.push(k - 1));
        }
        assert(r[j] == t);
    }
}

/// What is staged is what the next upload writes: when a staging buffer
/// holds `bytes` at a non-empty range, the upload writes, to a clone of the
/// same GPU buffer as the range's, bytes that hold `bytes` at that range.
pub proof fn lemma_staged_then_uploaded<B: Clone>(
    staged: Seq<Seq<u8>>,
    handles: Seq<B>,
    range: (B, u32, u32),
    bytes: Seq<u8>,
    writes: Seq<(B, Vec<u8>)>,
    align4: bool,
)
    requires
        staged_at(staged, handles, range, bytes),
        range.1 < range.2,
        writes_match(writes, handles, staged, nonempty_indices(staged, staged.len() as int), align4),
    ensures
        exists|j: int, t: int|
            #![trigger writes[j], handles[t]]
            {
                &&& 0 <= j < writes.len()
                &&& 0 <= t < handles.len()
                &&& cloned(handles[t], range.0)
                &&& cloned(handles[t], writes[j].0)
                &&& range.2 <= writes[j].1@.len()
                &&& writes[j].1@.subrange(range.1 as int, range.2 as int) == bytes
            },
{
    let t = choose|t: int|
        #![trigger staged[t], handles[t]]
        {
            &&& 0 <= t < staged.len()
            &&& t < handles.len()
            &&& cloned(handles[t], range.0)
            &&& range.1 <= range.2 <= staged[t].len()
            &&& staged[t].subrange(range.1 as int, range.2 as int) == bytes
        };
    let ix = nonempty_indices(staged, staged.len() as int);
    lemma_nonempty_indices_complete(staged, staged.len() as int, t);
    let j = choose|j: int| 0 <= j < ix.len() && #[trigger] ix[j] == t;
    assert(write_matches(writes[j], handles[ix[j]], staged[ix[j]], align4));
    let w = writes[j].1@;
    if align4 && staged[t].len() % 4 != 0 {
        assert(w == staged[t] + Seq::new((4 - staged[t].len() % 4) as nat, |i: int| 0u8));
        assert(w.subrange(range.1 as int, range.2 as int) =~= staged[t].subrange(
            range.1 as int,
            range.2 as int,
        ));
    } else {
        assert(w == staged[t]);
    }
    assert(writes[j] == writes[j] && handles[t] == handles[t]);
}

} // verus!
