//! The buffers of an extracted scene: whole copies of the buffers that were
//! taken, or buffers that hold nothing but the ranges of the buffer views
//! that were taken.

use crate::buffers::{GltfBinaryBuffer, GltfBufferView};
use crate::gltf_object::closure::{Closure, Selection};
use crate::gltf_object::record::{position, remapped, Record};
use crate::gltf_object::GltfObject;
use vstd::prelude::*;
use vstd::slice::slice_subrange;

verus! {

/// The bytes of buffer `buffer` that `views` name, range after range in the
/// order of the views.
pub open spec fn packed(
    views: Seq<GltfBufferView>,
    buffers: Seq<GltfBinaryBuffer>,
    buffer: usize,
) -> Seq<u8>
    decreases views.len(),
{
    if views.len() == 0 {
        Seq::empty()
    } else {
        let before = packed(views.drop_last(), buffers, buffer);
        if views.last().buffer == buffer {
            before + views.last().slice_of(buffers[buffer as int].bytes@)
        } else {
            before
        }
    }
}

/// The chosen records, in the order of `chosen`.
pub open spec fn picked<R>(records: Seq<R>, chosen: Seq<usize>) -> Seq<R> {
    Seq::new(chosen.len(), |k: int| records[chosen[k] as int])
}

/// Whether `copies` holds a copy of each buffer that was taken, whole and
/// tagged with its source index.
pub open spec fn is_copied_whole(
    copies: Seq<GltfBinaryBuffer>,
    buffers: Seq<GltfBinaryBuffer>,
    buffer_order: Seq<usize>,
) -> bool {
    &&& copies.len() == buffer_order.len()
    &&& forall|b: int|
        0 <= b < buffer_order.len() ==> (#[trigger] copies[b]).holds(
            buffers[buffer_order[b] as int].bytes@,
            Some(buffer_order[b]),
        )
}

/// Whether `new_views` and `new_buffers` hold the views and the buffers that
/// were taken, with each buffer shrunk to the ranges of those views. A new
/// buffer holds the ranges of the views of its source, in the order of the
/// views; a new view starts where its range was put, and is otherwise a copy
/// that is tagged with its source index and names the new buffer.
pub open spec fn is_repacked(
    new_views: Seq<GltfBufferView>,
    new_buffers: Seq<GltfBinaryBuffer>,
    views: Seq<GltfBufferView>,
    view_order: Seq<usize>,
    buffers: Seq<GltfBinaryBuffer>,
    buffer_order: Seq<usize>,
) -> bool {
    let taken = picked(views, view_order);
    &&& new_views.len() == view_order.len()
    &&& forall|k: int|
        #![trigger new_views[k]]
        0 <= k < view_order.len() ==> {
            &&& new_views[k].byte_length == taken[k].byte_length
            &&& new_views[k].target == taken[k].target
            &&& new_views[k].original_index == Some(view_order[k])
            &&& remapped(buffer_order, Some(taken[k].buffer), Some(new_views[k].buffer))
            &&& new_views[k].byte_offset == packed(taken.take(k), buffers, taken[k].buffer).len()
        }
    &&& new_buffers.len() == buffer_order.len()
    &&& forall|b: int|
        0 <= b < buffer_order.len() ==> (#[trigger] new_buffers[b]).holds(
            packed(taken, buffers, buffer_order[b]),
            Some(buffer_order[b]),
        )
}

/// One step of `packed`: a prefix of the views that is one longer.
pub proof fn lemma_packed_step(
    views: Seq<GltfBufferView>,
    buffers: Seq<GltfBinaryBuffer>,
    buffer: usize,
    k: int,
)
    requires
        0 <= k < views.len(),
    ensures
        packed(views.take(k + 1), buffers, buffer) == if views[k].buffer == buffer {
            packed(views.take(k), buffers, buffer) + views[k].slice_of(
                buffers[buffer as int].bytes@,
            )
        } else {
            packed(views.take(k), buffers, buffer)
        },
{
    assert(views.take(k + 1).drop_last() =~= views.take(k));
}

/// What was packed for a prefix of the views stays in front.
pub proof fn lemma_packed_grows(
    views: Seq<GltfBufferView>,
    buffers: Seq<GltfBinaryBuffer>,
    buffer: usize,
    k: int,
)
    requires
        0 <= k <= views.len(),
    ensures
        packed(views.take(k), buffers, buffer).is_prefix_of(packed(views, buffers, buffer)),
    decreases views.len() - k,
{
    let all = packed(views, buffers, buffer);
    if k == views.len() {
        assert(views.take(k) =~= views);
        assert(all.subrange(0, all.len() as int) =~= all);
    } else {
        lemma_packed_grows(views, buffers, buffer, k + 1);
        lemma_packed_step(views, buffers, buffer, k);
        let shorter = packed(views.take(k), buffers, buffer);
        let longer = packed(views.take(k + 1), buffers, buffer);
        assert(longer.subrange(0, shorter.len() as int) =~= shorter);
        assert(shorter =~= all.subrange(0, shorter.len() as int)) by {
            assert(longer == all.subrange(0, longer.len() as int));
        }
    }
}

/// In a packed buffer, the range of a view that fits its source holds the
/// bytes that the view names in the source.
pub proof fn lemma_packed_holds(
    views: Seq<GltfBufferView>,
    buffers: Seq<GltfBinaryBuffer>,
    k: int,
)
    requires
        0 <= k < views.len(),
        views[k].buffer < buffers.len(),
        views[k].fits(buffers[views[k].buffer as int].bytes@.len()),
    ensures
        ({
            let buffer = views[k].buffer;
            let start = packed(views.take(k), buffers, buffer).len();
            let all = packed(views, buffers, buffer);
            &&& start + views[k].byte_length <= all.len()
            &&& all.subrange(start as int, start + views[k].byte_length) == views[k].slice_of(
                buffers[buffer as int].bytes@,
            )
        }),
{
    let buffer = views[k].buffer;
    let all = packed(views, buffers, buffer);
    let shorter = packed(views.take(k), buffers, buffer);
    let longer = packed(views.take(k + 1), buffers, buffer);
    let slice = views[k].slice_of(buffers[buffer as int].bytes@);
    lemma_packed_step(views, buffers, buffer, k);
    lemma_packed_grows(views, buffers, buffer, k + 1);
    assert(longer == shorter + slice);
    assert(longer == all.subrange(0, longer.len() as int));
    assert(slice.len() == views[k].byte_length);
    assert forall|i: int| 0 <= i < slice.len() implies all[shorter.len() + i] == slice[i] by {
        assert(longer[shorter.len() + i] == slice[i]);
        assert(all.subrange(0, longer.len() as int)[shorter.len() + i] == all[shorter.len() + i]);
    }
    assert(all.subrange(shorter.len() as int, shorter.len() + views[k].byte_length) =~= slice);
}

impl GltfObject {
    /// Whether a buffer that was taken declares a length that its payload
    /// does not have.
    pub open spec fn takes_ill_formed_buffer(&self, c: Closure) -> bool {
        exists|b: int|
            0 <= b < c.buffers.len() && !(#[trigger] self.buffers.0@[c.buffers[b] as int]).wf()
    }

    /// Whether a buffer view that was taken reaches past the end of its
    /// buffer.
    pub open spec fn takes_misfit_view(&self, c: Closure) -> bool {
        exists|k: int|
            0 <= k < c.buffer_views.len() && !self.view_fits(
                #[trigger] self.buffer_views@[c.buffer_views[k] as int],
            )
    }

    /// Whether the range of `view` lies within the buffer that it names.
    pub open spec fn view_fits(&self, view: GltfBufferView) -> bool {
        view.fits(self.buffers.0@[view.buffer as int].bytes@.len())
    }

    /// Copies the buffers that were taken, whole.
    pub(crate) fn copy_buffers(&self, selection: &Selection) -> (copies: Vec<GltfBinaryBuffer>)
        requires
            selection@.within(self),
            !self.takes_ill_formed_buffer(selection@),
        ensures
            is_copied_whole(copies@, self.buffers.0@, selection@.buffers),
    {
        let mut copies: Vec<GltfBinaryBuffer> = Vec::with_capacity(selection.buffers.len());
        let mut b: usize = 0;
        while b < selection.buffers.len()
            invariant
                b <= selection.buffers@.len(),
                selection@.within(self),
                !self.takes_ill_formed_buffer(selection@),
                is_copied_whole(copies@, self.buffers.0@, selection.buffers@.take(b as int)),
            decreases selection.buffers@.len() - b,
        {
            let index = selection.buffers[b];
            let source = &self.buffers.0[index];
            assert(self.buffers.0@[selection@.buffers[b as int] as int].wf());
            let ghost before = copies@;
            copies.push(source.duplicate(Some(index)));
            proof {
                let taken = selection.buffers@.take(b as int + 1);
                assert forall|j: int| 0 <= j < taken.len() implies (#[trigger] copies@[j]).holds(
                    self.buffers.0@[taken[j] as int].bytes@,
                    Some(taken[j]),
                ) by {
                    if j < b {
                        assert(copies@[j] == before[j]);
                        assert(selection.buffers@.take(b as int)[j] == taken[j]);
                    }
                }
            }
            b = b + 1;
        }
        assert(selection.buffers@.take(b as int) =~= selection.buffers@);
        copies
    }

    /// Makes, of the views and the buffers that were taken, views and
    /// buffers that hold the ranges of the views and nothing else.
    pub(crate) fn repack(&self, selection: &Selection) -> (res: (
        Vec<GltfBufferView>,
        Vec<GltfBinaryBuffer>,
    ))
        requires
            selection@.within(self),
            selection@.closed(self),
            !self.takes_misfit_view(selection@),
        ensures
            is_repacked(
                res.0@,
                res.1@,
                self.buffer_views@,
                selection@.buffer_views,
                self.buffers.0@,
                selection@.buffers,
            ),
    {
        let ghost taken = picked(self.buffer_views@, selection@.buffer_views);
        let ghost sources = self.buffers.0@;
        let count = selection.buffer_views.len();
        let mut offsets: Vec<usize> = Vec::with_capacity(count);
        let mut k: usize = 0;
        while k < count
            invariant
                k <= count,
                offsets@.len() == k,
            decreases count - k,
        {
            offsets.push(0);
            k = k + 1;
        }
        let mut new_buffers: Vec<GltfBinaryBuffer> = Vec::with_capacity(selection.buffers.len());
        let mut b: usize = 0;
        while b < selection.buffers.len()
            invariant
                b <= selection.buffers@.len(),
                count == selection.buffer_views@.len(),
                offsets@.len() == count,
                selection@.within(self),
                !self.takes_misfit_view(selection@),
                taken == picked(self.buffer_views@, selection@.buffer_views),
                sources == self.buffers.0@,
                new_buffers@.len() == b,
                forall|j: int|
                    0 <= j < b ==> (#[trigger] new_buffers@[j]).holds(
                        packed(taken, sources, selection.buffers@[j]),
                        Some(selection.buffers@[j]),
                    ),
                forall|j: int, i: int|
                    #![trigger offsets@[j], selection.buffers@[i]]
                    0 <= j < count && 0 <= i < b && selection.buffers@[i] == taken[j].buffer
                        ==> offsets@[j] == packed(taken.take(j), sources, taken[j].buffer).len(),
            decreases selection.buffers@.len() - b,
        {
            let index = selection.buffers[b];
            let source = &self.buffers.0[index];
            let mut bytes: Vec<u8> = Vec::new();
            let mut k: usize = 0;
            while k < count
                invariant
                    k <= count,
                    b < selection.buffers@.len(),
                    index == selection.buffers@[b as int],
                    index < self.buffers.0@.len(),
                    *source == self.buffers.0@[index as int],
                    count == selection.buffer_views@.len(),
                    offsets@.len() == count,
                    selection@.within(self),
                    !self.takes_misfit_view(selection@),
                    taken == picked(self.buffer_views@, selection@.buffer_views),
                    sources == self.buffers.0@,
                    bytes@ == packed(taken.take(k as int), sources, index),
                    forall|j: int, i: int|
                        #![trigger offsets@[j], selection.buffers@[i]]
                        0 <= j < count && (0 <= i < b || (i == b && j < k)) && selection.buffers@[i]
                            == taken[j].buffer ==> offsets@[j] == packed(
                            taken.take(j),
                            sources,
                            taken[j].buffer,
                        ).len(),
                decreases count - k,
            {
                let view = &self.buffer_views[selection.buffer_views[k]];
                assert(*view == taken[k as int]);
                proof {
                    lemma_packed_step(taken, sources, index, k as int);
                }
                if view.buffer == index {
                    assert(self.view_fits(self.buffer_views@[selection@.buffer_views[k as int] as int]));
                    assert(view.byte_offset + view.byte_length <= source.bytes.len());
                    offsets.set(k, bytes.len());
                    let range = slice_subrange(
                        source.bytes.as_slice(),
                        view.byte_offset,
                        view.byte_offset + view.byte_length,
                    );
                    let ghost before = bytes@;
                    bytes.extend_from_slice(range);
                    assert(bytes@ =~= before + range@);
                }
                k = k + 1;
            }
            assert(taken.take(k as int) =~= taken);
            let byte_length = bytes.len();
            new_buffers.push(GltfBinaryBuffer { byte_length, bytes, original_index: Some(index) });
            b = b + 1;
        }
        let mut new_views: Vec<GltfBufferView> = Vec::with_capacity(count);
        let mut k: usize = 0;
        while k < count
            invariant
                k <= count,
                count == selection.buffer_views@.len(),
                offsets@.len() == count,
                selection@.within(self),
                selection@.closed(self),
                taken == picked(self.buffer_views@, selection@.buffer_views),
                sources == self.buffers.0@,
                forall|j: int, i: int|
                    #![trigger offsets@[j], selection.buffers@[i]]
                    0 <= j < count && 0 <= i < selection.buffers@.len() && selection.buffers@[i]
                        == taken[j].buffer ==> offsets@[j] == packed(
                        taken.take(j),
                        sources,
                        taken[j].buffer,
                    ).len(),
                new_views@.len() == k,
                forall|j: int|
                    #![trigger new_views@[j]]
                    0 <= j < k ==> {
                        &&& new_views@[j].byte_length == taken[j].byte_length
                        &&& new_views@[j].target == taken[j].target
                        &&& new_views@[j].original_index == Some(selection.buffer_views@[j])
                        &&& remapped(
                            selection.buffers@,
                            Some(taken[j].buffer),
                            Some(new_views@[j].buffer),
                        )
                        &&& new_views@[j].byte_offset == packed(
                            taken.take(j),
                            sources,
                            taken[j].buffer,
                        ).len()
                    },
            decreases count - k,
        {
            let index = selection.buffer_views[k];
            let view = &self.buffer_views[index];
            assert(*view == taken[k as int]);
            assert(selection@.buffers.contains(
                self.buffer_views@[selection@.buffer_views[k as int] as int].buffer,
            ));
            let place = match position(&selection.buffers, view.buffer) {
                Some(place) => place,
                None => 0,
            };
            assert(selection.buffers@[place as int] == taken[k as int].buffer);
            let mut new_view = view.extract(index, Some(place), None);
            new_view.byte_offset = offsets[k];
            new_views.push(new_view);
            k = k + 1;
        }
        (new_views, new_buffers)
    }
}

} // verus!
