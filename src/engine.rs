use vstd::prelude::*;
use crate::buffer::DynamicBuffer;
use crate::error::RenderError;
use crate::frame::{
    DeviceCall, DrawData, DrawList, NativeVertex, build_calls, flat_indices, flat_vertices,
    frame_calls,
};
use crate::sync::{
    TextureDescriptor, TextureWork, plan_descriptor, step_work, sync_descriptor, sync_error,
    sync_fails, sync_outcome,
};
use crate::texture::TextureHeap;

verus! {

/// Vertices the native vertex buffer holds before any frame asks for more.
pub const INITIAL_VERTEX_CAPACITY: usize = 5000;

/// Indices the native index buffer holds before any frame asks for more.
pub const INITIAL_INDEX_CAPACITY: usize = 10000;

/// What the device has to do for one frame: replace a buffer whose staging
/// list outgrew it (by the new capacity, recorded with `resource_replaced` once
/// allocated), upload both staging lists, then make `calls` in order.
pub struct FramePlan {
    pub vertex_grow: Option<usize>,
    pub index_grow: Option<usize>,
    pub calls: Vec<DeviceCall>,
}

/// The renderer's own state: the texture registry and the two dynamic buffers.
pub struct D3D9RenderEngine {
    pub textures: TextureHeap,
    pub vertex_buffer: DynamicBuffer<NativeVertex>,
    pub index_buffer: DynamicBuffer<u16>,
}

impl D3D9RenderEngine {
    pub open spec fn wf(&self) -> bool {
        self.textures.wf()
    }

    pub fn new() -> (r: Self)
        ensures
            r.wf(),
            r.textures.records@.len() == 0,
            r.vertex_buffer.data@.len() == 0,
            r.vertex_buffer.resource_capacity == INITIAL_VERTEX_CAPACITY,
            r.index_buffer.data@.len() == 0,
            r.index_buffer.resource_capacity == INITIAL_INDEX_CAPACITY,
    {
        D3D9RenderEngine {
            textures: TextureHeap::new(),
            vertex_buffer: DynamicBuffer::new(INITIAL_VERTEX_CAPACITY),
            index_buffer: DynamicBuffer::new(INITIAL_INDEX_CAPACITY),
        }
    }

    /// Creates a texture of `width` by `height` holding the tightly packed
    /// four-byte image `data`, and returns its new handle.
    pub fn load_texture(&mut self, data: &Vec<u8>, width: u32, height: u32) -> (r: Result<
        usize,
        RenderError,
    >)
        requires
            old(self).wf(),
            data@.len() >= 4 * width as int * height as int,
            4 * width as int <= usize::MAX,
        ensures
            final(self).wf(),
            final(self).vertex_buffer == old(self).vertex_buffer,
            final(self).index_buffer == old(self).index_buffer,
            final(self).textures.records@.len() == old(self).textures.records@.len() + 1,
            r == Ok::<usize, RenderError>(old(self).textures.records@.len() as usize),
            forall|i: int|
                0 <= i < old(self).textures.records@.len() ==> final(self).textures.records@[i]
                    == old(self).textures.records@[i],
            ({
                let rec = final(self).textures.records@[old(self).textures.records@.len() as int];
                &&& rec.width == width
                &&& rec.height == height
                &&& rec.holds_image(data@, 4 * width as int, 4)
            }),
    {
        let n = data.len();
        assert(width as int * height as int <= usize::MAX) by (nonlinear_arith)
            requires
                data@.len() >= 4 * width as int * height as int,
                data@.len() <= usize::MAX,
                width >= 0,
                height >= 0,
        ;
        let handle = self.textures.create(width, height);
        let res = self.textures.upload(handle, data, width, height);
        match res {
            Ok(()) => Ok(handle),
            Err(e) => Err(e),
        }
    }

    /// Uploads a new tightly packed four-byte image into the texture `handle`,
    /// which keeps its size: an image of another size gives `DimensionMismatch`.
    pub fn replace_texture(&mut self, handle: usize, data: &Vec<u8>, width: u32, height: u32) -> (r:
        Result<(), RenderError>)
        requires
            old(self).wf(),
            handle < old(self).textures.records@.len(),
            data@.len() >= 4 * width as int * height as int,
            4 * width as int <= usize::MAX,
        ensures
            final(self).wf(),
            final(self).vertex_buffer == old(self).vertex_buffer,
            final(self).index_buffer == old(self).index_buffer,
            final(self).textures.records@.len() == old(self).textures.records@.len(),
            forall|i: int|
                0 <= i < old(self).textures.records@.len() && i != handle
                    ==> final(self).textures.records@[i] == old(self).textures.records@[i],
            ({
                let rec = old(self).textures.records@[handle as int];
                if rec.width != width || rec.height != height {
                    r == Err::<(), RenderError>(
                        RenderError::DimensionMismatch {
                            expected_width: rec.width,
                            expected_height: rec.height,
                            width,
                            height,
                        },
                    ) && final(self).textures.records@ == old(self).textures.records@
                } else {
                    r == Ok::<(), RenderError>(()) && final(self).textures.records@[handle as int].width == width
                        && final(self).textures.records@[handle as int].height == height
                        && final(self).textures.records@[handle as int].holds_image(
                        data@,
                        4 * width as int,
                        4,
                    )
                }
            }),
    {
        self.textures.upload(handle, data, width, height)
    }

    /// Decides what syncing the texture descriptor `d` asks of the device, and
    /// whether it fails, without changing anything; see `plan_descriptor`.
    pub fn plan_texture(&self, d: &TextureDescriptor) -> (r: Result<Vec<TextureWork>, RenderError>)
        requires
            self.wf(),
            d.wf(),
            d.tex_id matches Some(h) ==> h < self.textures.records@.len(),
        ensures
            sync_fails(*d, self.textures.records@) ==> r == Err::<Vec<TextureWork>, RenderError>(
                sync_error(*d, self.textures.records@),
            ),
            !sync_fails(*d, self.textures.records@) ==> (r matches Ok(w) && w@ == step_work(
                *d,
                self.textures.records@.len() as usize,
            )),
    {
        plan_descriptor(&self.textures, d)
    }

    /// Records the sync of one texture descriptor, once the device work that
    /// `plan_texture` asked for has been done; see `sync_descriptor`.
    pub fn update_texture(&mut self, d: &mut TextureDescriptor) -> (r: Result<
        Vec<TextureWork>,
        RenderError,
    >)
        requires
            old(self).wf(),
            old(d).wf(),
            old(d).tex_id matches Some(h) ==> h < old(self).textures.records@.len(),
        ensures
            final(self).wf(),
            final(d).wf(),
            final(d).tex_id matches Some(h) ==> h < final(self).textures.records@.len(),
            final(self).vertex_buffer == old(self).vertex_buffer,
            final(self).index_buffer == old(self).index_buffer,
            sync_outcome(old(self).textures.records@, final(self).textures.records@, *old(d), *final(d), r),
    {
        sync_descriptor(&mut self.textures, d)
    }

    /// Prepares a frame: rebuilds both staging lists from the draw lists
    /// (vertex colors in native channel order), says which native buffer must
    /// grow (without recording it), and lists the device calls of the frame.
    pub fn prepare_frame(&mut self, dd: &DrawData) -> (r: FramePlan)
        requires
            dd.wf(),
        ensures
            final(self).textures == old(self).textures,
            final(self).vertex_buffer.data@ == flat_vertices(dd.lists@),
            final(self).index_buffer.data@ == flat_indices(dd.lists@),
            final(self).vertex_buffer.resource_capacity == old(self).vertex_buffer.resource_capacity,
            final(self).index_buffer.resource_capacity == old(self).index_buffer.resource_capacity,
            r.vertex_grow == (if flat_vertices(dd.lists@).len() > old(self).vertex_buffer.resource_capacity {
                Some(flat_vertices(dd.lists@).len() as usize)
            } else {
                None::<usize>
            }),
            r.index_grow == (if flat_indices(dd.lists@).len() > old(self).index_buffer.resource_capacity {
                Some(flat_indices(dd.lists@).len() as usize)
            } else {
                None::<usize>
            }),
            r.calls@ == frame_calls(dd.lists@),
    {
        self.vertex_buffer.clear();
        self.index_buffer.clear();
        let (vs, is) = crate::frame::flatten(dd);
        self.vertex_buffer.extend(vs);
        self.index_buffer.extend(is);
        let vertex_grow = self.vertex_buffer.needed_capacity();
        let index_grow = self.index_buffer.needed_capacity();
        let calls = build_calls(dd);
        FramePlan { vertex_grow, index_grow, calls }
    }
}

} // verus!
