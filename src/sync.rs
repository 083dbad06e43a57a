use vstd::prelude::*;
use crate::color::{ColorBytes, source_texel, texel_from_source};
use crate::error::RenderError;
use crate::texture::{
    TextureHeap, TextureRecord, in_region, lemma_source_bound, source_fits, texel_index,
};

verus! {

/// Where a texture stands in its negotiation with the renderer.
#[derive(Clone, Copy, PartialEq, Eq, Structural, Debug)]
pub enum TextureStatus {
    Ready,
    Destroyed,
    WantDestroy,
    WantCreate,
    WantUpdates,
}

#[derive(Clone, Copy, PartialEq, Eq, Structural, Debug)]
pub struct UpdateRect {
    pub x: u32,
    pub y: u32,
    pub w: u32,
    pub h: u32,
}

/// One texture as the GUI library describes it for this frame. `tex_id` is the
/// handle it was given, or `None` where it has none.
pub struct TextureDescriptor {
    pub status: TextureStatus,
    pub width: u32,
    pub height: u32,
    pub pixels: Option<Vec<u8>>,
    pub pitch: usize,
    pub bytes_per_pixel: usize,
    pub updates: Vec<UpdateRect>,
    pub update_rect: UpdateRect,
    pub tex_id: Option<usize>,
}

/// A native operation that a synchronisation asks for, in order: allocate the
/// texture of a new handle, or copy a region of a record's texels to its
/// native texture.
#[derive(Clone, Copy, PartialEq, Eq, Structural, Debug)]
pub enum TextureWork {
    Create { handle: usize, width: u32, height: u32 },
    Upload { handle: usize, rect: UpdateRect },
}

pub open spec fn rect_nonempty(r: UpdateRect) -> bool {
    r.w != 0 && r.h != 0
}

/// The rectangles of `rs` with an area, in order.
pub open spec fn drawn_rects(rs: Seq<UpdateRect>) -> Seq<UpdateRect>
    decreases rs.len(),
{
    if rs.len() == 0 {
        seq![]
    } else if rect_nonempty(rs.last()) {
        drawn_rects(rs.drop_last()).push(rs.last())
    } else {
        drawn_rects(rs.drop_last())
    }
}

pub open spec fn in_rect(px: int, py: int, r: UpdateRect) -> bool {
    in_region(px, py, r.x as int, r.y as int, r.w as int, r.h as int)
}

/// Whether the texel at `(px, py)` lies in one of the rectangles.
pub open spec fn covered(px: int, py: int, rs: Seq<UpdateRect>) -> bool
    decreases rs.len(),
{
    rs.len() > 0 && (covered(px, py, rs.drop_last()) || in_rect(px, py, rs.last()))
}

pub open spec fn full_rect(d: TextureDescriptor) -> UpdateRect {
    UpdateRect { x: 0, y: 0, w: d.width, h: d.height }
}

/// The regions that an update of `d` uploads: its list of dirty rectangles where
/// it has one, else its single update rectangle where that has an area, else
/// the whole image.
pub open spec fn update_regions(d: TextureDescriptor) -> Seq<UpdateRect> {
    if d.updates@.len() > 0 {
        drawn_rects(d.updates@)
    } else if rect_nonempty(d.update_rect) {
        seq![d.update_rect]
    } else {
        seq![full_rect(d)]
    }
}

pub open spec fn needs_sync(d: TextureDescriptor) -> bool {
    d.status != TextureStatus::Ready && d.status != TextureStatus::Destroyed
}

/// A descriptor that asks for a texture but carries no usable image is left
/// for a later frame.
pub open spec fn lacks_image(d: TextureDescriptor) -> bool {
    d.width == 0 || d.height == 0 || d.pixels.is_none()
}

pub open spec fn wants_create(d: TextureDescriptor) -> bool {
    needs_sync(d) && d.status != TextureStatus::WantDestroy && !lacks_image(d) && (d.status
        == TextureStatus::WantCreate || d.tex_id.is_none())
}

pub open spec fn wants_update(d: TextureDescriptor) -> bool {
    needs_sync(d) && d.status != TextureStatus::WantDestroy && !lacks_image(d) && !wants_create(
        d,
    )
}

pub open spec fn pixel_bytes(d: TextureDescriptor) -> Seq<u8> {
    d.pixels.unwrap()@
}

impl TextureDescriptor {
    /// The pixel buffer, where there is one, holds `height` rows of `pitch`
    /// bytes, each with `width` pixels of one or four bytes.
    pub open spec fn wf(&self) -> bool {
        self.pixels.is_some() ==> source_fits(
            self.pixels.unwrap()@.len() as int,
            self.width as int,
            self.height as int,
            self.pitch as int,
            self.bytes_per_pixel as int,
        )
    }
}

/// The record's texels after the regions `rs` of the image were written.
pub open spec fn regions_written(
    new_rec: TextureRecord,
    old_rec: TextureRecord,
    d: TextureDescriptor,
    rs: Seq<UpdateRect>,
) -> bool {
    &&& new_rec.width == old_rec.width
    &&& new_rec.height == old_rec.height
    &&& new_rec.texels@.len() == old_rec.texels@.len()
    &&& forall|px: int, py: int|
        #![trigger texel_index(new_rec.width as int, px, py)]
        0 <= px < new_rec.width && 0 <= py < new_rec.height ==> new_rec.texels@[texel_index(
            new_rec.width as int,
            px,
            py,
        )] == if covered(px, py, rs) {
            source_texel(
                pixel_bytes(d),
                py * d.pitch + px * d.bytes_per_pixel,
                d.bytes_per_pixel as int,
            )
        } else {
            old_rec.texels@[texel_index(new_rec.width as int, px, py)]
        }
}

pub open spec fn rect_inside(r: UpdateRect, width: u32, height: u32) -> bool {
    r.x as int + r.w as int <= width as int && r.y as int + r.h as int <= height as int
}

pub open spec fn upload_works(handle: usize, rs: Seq<UpdateRect>) -> Seq<TextureWork> {
    rs.map_values(|r: UpdateRect| TextureWork::Upload { handle, rect: r })
}

fn collect_update_regions(d: &TextureDescriptor) -> (r: Vec<UpdateRect>)
    ensures
        r@ == update_regions(*d),
{
    if d.updates.len() > 0 {
        let mut out: Vec<UpdateRect> = Vec::new();
        let mut i: usize = 0;
        while i < d.updates.len()
            invariant
                0 <= i <= d.updates@.len(),
                out@ == drawn_rects(d.updates@.take(i as int)),
            decreases d.updates@.len() - i,
        {
            let rect = d.updates[i];
            assert(d.updates@.take(i as int + 1).drop_last() =~= d.updates@.take(i as int));
            if rect.w != 0 && rect.h != 0 {
                out.push(rect);
            }
            i = i + 1;
        }
        assert(d.updates@.take(d.updates@.len() as int) =~= d.updates@);
        out
    } else if d.update_rect.w != 0 && d.update_rect.h != 0 {
        vec![d.update_rect]
    } else {
        vec![UpdateRect { x: 0, y: 0, w: d.width, h: d.height }]
    }
}

/// What syncing the descriptor `old_d` against the records `old_recs` does:
/// the descriptor becomes `new_d`, the records `new_recs`, and `r` comes back.
pub open spec fn sync_outcome(
    old_recs: Seq<TextureRecord>,
    new_recs: Seq<TextureRecord>,
    old_d: TextureDescriptor,
    new_d: TextureDescriptor,
    r: Result<Vec<TextureWork>, RenderError>,
) -> bool {
    &&& new_d.width == old_d.width
    &&& new_d.height == old_d.height
    &&& new_d.pixels == old_d.pixels
    &&& new_d.pitch == old_d.pitch
    &&& new_d.bytes_per_pixel == old_d.bytes_per_pixel
    &&& new_d.updates == old_d.updates
    &&& new_d.update_rect == old_d.update_rect
    &&& (sync_fails(old_d, old_recs) ==> r == Err::<Vec<TextureWork>, RenderError>(
        sync_error(old_d, old_recs),
    ))
    &&& (!sync_fails(old_d, old_recs) ==> (r matches Ok(w) && w@ == step_work(
        old_d,
        old_recs.len() as usize,
    )) && synced(old_d, new_d, old_recs.len() as usize) && new_recs.len() == old_recs.len()
        + if wants_create(old_d) {
        1nat
    } else {
        0nat
    })
    &&& forall|j: int|
        0 <= j < old_recs.len() ==> (#[trigger] new_recs[j]).width == old_recs[j].width
            && new_recs[j].height == old_recs[j].height
    &&& (!needs_sync(old_d) || (old_d.status != TextureStatus::WantDestroy && lacks_image(old_d))
        ==> (r matches Ok(w) && w@.len() == 0) && new_d == old_d && new_recs == old_recs)
    &&& (needs_sync(old_d) && old_d.status == TextureStatus::WantDestroy ==> (r matches Ok(w)
        && w@.len() == 0) && new_d.status == TextureStatus::Destroyed && new_d.tex_id.is_none()
        && new_recs == old_recs)
    &&& (wants_create(old_d) ==> ({
            let h = old_recs.len() as usize;
            &&& r matches Ok(w) && w@ == seq![
                TextureWork::Create { handle: h, width: old_d.width, height: old_d.height },
                TextureWork::Upload { handle: h, rect: full_rect(old_d) },
            ]
            &&& new_d.status == TextureStatus::Ready
            &&& new_d.tex_id == Some(h)
            &&& new_recs.len() == old_recs.len() + 1
            &&& forall|i: int|
                0 <= i < old_recs.len() ==> new_recs[i] == old_recs[i]
            &&& new_recs[h as int].width == old_d.width
            &&& new_recs[h as int].height == old_d.height
            &&& forall|px: int, py: int|
                #![trigger texel_index(old_d.width as int, px, py)]
                0 <= px < old_d.width && 0 <= py < old_d.height ==> new_recs[h as int].texels@[texel_index(old_d.width as int, px, py)]
                    == source_texel(
                    pixel_bytes(old_d),
                    py * old_d.pitch + px * old_d.bytes_per_pixel,
                    old_d.bytes_per_pixel as int,
                )
    }))
    &&& (wants_update(old_d) ==> ({
            let h = old_d.tex_id.unwrap();
            let rec = old_recs[h as int];
            let rs = update_regions(old_d);
            &&& new_recs.len() == old_recs.len()
            &&& forall|i: int|
                0 <= i < old_recs.len() && i != h ==> new_recs[i] == old_recs[i]
            &&& if rs.len() > 0 && (rec.width != old_d.width || rec.height != old_d.height) {
                &&& r == Err::<Vec<TextureWork>, RenderError>(
                    RenderError::DimensionMismatch {
                        expected_width: rec.width,
                        expected_height: rec.height,
                        width: old_d.width,
                        height: old_d.height,
                    },
                )
                &&& new_d == old_d
                &&& new_recs == old_recs
            } else if exists|i: int|
                0 <= i < rs.len() && !rect_inside(#[trigger] rs[i], old_d.width, old_d.height) {
                &&& r == Err::<Vec<TextureWork>, RenderError>(RenderError::MappingFailure)
                &&& new_d == old_d
                &&& exists|k: int|
                    #![trigger rs[k]]
                    0 <= k < rs.len() && !rect_inside(rs[k], old_d.width, old_d.height) && (
                    forall|j: int| 0 <= j < k ==> rect_inside(#[trigger] rs[j], old_d.width, old_d.height))
                        && regions_written(new_recs[h as int], rec, old_d, rs.take(k))
            } else {
                &&& r matches Ok(w) && w@ == upload_works(h, rs)
                &&& new_d.status == TextureStatus::Ready
                &&& new_d.tex_id == old_d.tex_id
                &&& regions_written(new_recs[h as int], rec, old_d, rs)
            }
    }))
}

/// Brings one texture descriptor up to date against the heap, and returns the
/// native work that this asks for.
///
/// A descriptor that is `Ready` or `Destroyed` is left alone. `WantDestroy` clears
/// the handle and becomes `Destroyed`. One without a usable image waits. One that
/// wants creation, or has no handle, gets a fresh texture of its size holding its
/// whole image, and becomes `Ready`. Otherwise the regions it names are uploaded to
/// its texture, and it becomes `Ready`; an upload that fails stops the work there.
pub fn sync_descriptor(heap: &mut TextureHeap, d: &mut TextureDescriptor) -> (r: Result<
    Vec<TextureWork>,
    RenderError,
>)
    requires
        old(heap).wf(),
        old(d).wf(),
        old(d).tex_id matches Some(h) ==> h < old(heap).records@.len(),
    ensures
        final(heap).wf(),
        final(d).wf(),
        final(d).tex_id matches Some(h) ==> h < final(heap).records@.len(),
        sync_outcome(old(heap).records@, final(heap).records@, *old(d), *final(d), r),
{
    proof {
        reveal(step_work);
        reveal(synced);
        reveal(sync_fails);
        reveal(sync_error);
    }
    match d.status {
        TextureStatus::Ready | TextureStatus::Destroyed => {
            return Ok(Vec::new());
        },
        TextureStatus::WantDestroy => {
            d.tex_id = None;
            d.status = TextureStatus::Destroyed;
            return Ok(Vec::new());
        },
        _ => {},
    }
    if d.width == 0 || d.height == 0 {
        return Ok(Vec::new());
    }
    let width = d.width;
    let height = d.height;
    let pitch = d.pitch;
    let bpp = d.bytes_per_pixel;
    let create = match d.status {
        TextureStatus::WantCreate => true,
        _ => d.tex_id.is_none(),
    };
    let ghost d0 = *d;
    let pixels = match &d.pixels {
        None => {
            return Ok(Vec::new());
        },
        Some(p) => p,
    };
    let plen = pixels.len();
    if create {
        proof {
            assert(width as int * height as int <= usize::MAX) by (nonlinear_arith)
                requires
                    pixels@.len() >= pitch as int * height as int,
                    pitch as int >= width as int * bpp as int,
                    bpp >= 1,
                    pixels@.len() <= usize::MAX,
                    height >= 0,
                    width >= 0,
            ;
        }
        let handle = heap.create(width, height);
        let res = heap.upload_region(handle, pixels, width, height, pitch, 0, 0, width, height, bpp);
        match res {
            Err(e) => {
                return Err(e);
            },
            Ok(()) => {},
        }
        d.tex_id = Some(handle);
        d.status = TextureStatus::Ready;
        let mut work: Vec<TextureWork> = Vec::new();
        work.push(TextureWork::Create { handle, width, height });
        work.push(TextureWork::Upload { handle, rect: UpdateRect { x: 0, y: 0, w: width, h: height } });
        assert(work@ =~= step_work(d0, old(heap).records@.len() as usize));
        return Ok(work);
    }
    let handle = match d.tex_id {
        Some(h) => h,
        None => {
            return Ok(Vec::new());
        },
    };
    let rects = collect_update_regions(d);
    if rects.len() > 0 {
        let rec = heap.get(handle);
        if rec.width != width || rec.height != height {
            return Err(
                RenderError::DimensionMismatch {
                    expected_width: rec.width,
                    expected_height: rec.height,
                    width,
                    height,
                },
            );
        }
    }
    let ghost rec0 = heap.records@[handle as int];
    let ghost heap0 = heap.records@;
    let mut work: Vec<TextureWork> = Vec::new();
    let mut k: usize = 0;
    while k < rects.len()
        invariant
            0 <= k <= rects@.len(),
            rects@ == update_regions(d0),
            *d == d0,
            d0 == *old(d),
            d0.pixels.is_some(),
            wants_update(d0),
            d0.wf(),
            d0.tex_id == Some(handle),
            width == d0.width && height == d0.height,
            pitch == d0.pitch && bpp == d0.bytes_per_pixel,
            heap.wf(),
            handle < heap.records@.len(),
            heap.records@.len() == heap0.len(),
            forall|i: int| 0 <= i < heap0.len() && i != handle ==> heap.records@[i] == heap0[i],
            rects@.len() > 0 ==> rec0.width == width && rec0.height == height,
            rec0 == heap0[handle as int],
            heap0 == old(heap).records@,
            pixels@ == pixel_bytes(d0),
            source_fits(pixels@.len() as int, width as int, height as int, pitch as int, bpp as int),
            forall|i: int| 0 <= i < k ==> rect_inside(#[trigger] rects@[i], width, height),
            work@ == upload_works(handle, rects@.take(k as int)),
            regions_written(heap.records@[handle as int], rec0, d0, rects@.take(k as int)),
        decreases rects@.len() - k,
    {
        let rect = rects[k];
        let ghost before = heap.records@[handle as int];
        let res = heap.upload_region(handle, pixels, width, height, pitch, rect.x, rect.y, rect.w, rect.h, bpp);
        match res {
            Err(e) => {
                assert(!rect_inside(rects@[k as int], width, height));
                assert(heap.records@[handle as int] == before);
                proof {
                    reveal(sync_fails);
                    reveal(sync_error);
                }
                return Err(e);
            },
            Ok(()) => {},
        }
        work.push(TextureWork::Upload { handle, rect });
        proof {
            let tk = rects@.take(k as int);
            let tk1 = rects@.take(k as int + 1);
            assert(tk1.drop_last() =~= tk);
            assert(upload_works(handle, tk1) =~= upload_works(handle, tk).push(TextureWork::Upload { handle, rect }));
            let now = heap.records@[handle as int];
            assert forall|px: int, py: int|
                #![trigger texel_index(now.width as int, px, py)]
                0 <= px < now.width && 0 <= py < now.height implies now.texels@[texel_index(
                    now.width as int,
                    px,
                    py,
                )] == if covered(px, py, tk1) {
                    source_texel(pixel_bytes(d0), py * d0.pitch + px * d0.bytes_per_pixel, d0.bytes_per_pixel as int)
                } else {
                    rec0.texels@[texel_index(now.width as int, px, py)]
                } by {
                assert(texel_index(before.width as int, px, py) == texel_index(now.width as int, px, py));
                assert(tk1.last() == rect);
                assert(covered(px, py, tk1) == (covered(px, py, tk) || in_rect(px, py, rect)));
            }
        }
        k = k + 1;
    }
    proof {
        assert(rects@.take(rects@.len() as int) =~= rects@);
    }
    d.status = TextureStatus::Ready;
    Ok(work)
}


/// The work that syncing `d` asks for, when a new texture would get handle `h`.
#[verifier::opaque]
pub open spec fn step_work(d: TextureDescriptor, h: usize) -> Seq<TextureWork> {
    if wants_create(d) {
        seq![
            TextureWork::Create { handle: h, width: d.width, height: d.height },
            TextureWork::Upload { handle: h, rect: full_rect(d) },
        ]
    } else if wants_update(d) {
        upload_works(d.tex_id.unwrap(), update_regions(d))
    } else {
        seq![]
    }
}

/// A descriptor after a successful sync, when a new texture would get handle `h`.
#[verifier::opaque]
pub open spec fn synced(old_d: TextureDescriptor, new_d: TextureDescriptor, h: usize) -> bool {
    &&& new_d.width == old_d.width
    &&& new_d.height == old_d.height
    &&& new_d.pixels == old_d.pixels
    &&& new_d.pitch == old_d.pitch
    &&& new_d.bytes_per_pixel == old_d.bytes_per_pixel
    &&& new_d.updates == old_d.updates
    &&& new_d.update_rect == old_d.update_rect
    &&& if !needs_sync(old_d) || (old_d.status != TextureStatus::WantDestroy && lacks_image(old_d)) {
        new_d == old_d
    } else if old_d.status == TextureStatus::WantDestroy {
        new_d.status == TextureStatus::Destroyed && new_d.tex_id.is_none()
    } else if wants_create(old_d) {
        new_d.status == TextureStatus::Ready && new_d.tex_id == Some(h)
    } else {
        new_d.status == TextureStatus::Ready && new_d.tex_id == old_d.tex_id
    }
}

/// Whether syncing `d` fails against textures whose sizes are those of `recs`.
#[verifier::opaque]
pub open spec fn sync_fails(d: TextureDescriptor, recs: Seq<TextureRecord>) -> bool {
    wants_update(d) && ({
        let rec = recs[d.tex_id.unwrap() as int];
        let rs = update_regions(d);
        (rs.len() > 0 && (rec.width != d.width || rec.height != d.height)) || exists|i: int|
            0 <= i < rs.len() && !rect_inside(#[trigger] rs[i], d.width, d.height)
    })
}

#[verifier::opaque]
pub open spec fn sync_error(d: TextureDescriptor, recs: Seq<TextureRecord>) -> RenderError {
    let rec = recs[d.tex_id.unwrap() as int];
    if rec.width != d.width || rec.height != d.height {
        RenderError::DimensionMismatch {
            expected_width: rec.width,
            expected_height: rec.height,
            width: d.width,
            height: d.height,
        }
    } else {
        RenderError::MappingFailure
    }
}

/// Decides what syncing `d` against `heap` asks of the device, and whether it
/// fails, without changing anything: the device work can then be done first,
/// and `sync_descriptor` records the result only once it succeeded.
pub fn plan_descriptor(heap: &TextureHeap, d: &TextureDescriptor) -> (r: Result<
    Vec<TextureWork>,
    RenderError,
>)
    requires
        heap.wf(),
        d.wf(),
        d.tex_id matches Some(h) ==> h < heap.records@.len(),
    ensures
        sync_fails(*d, heap.records@) ==> r == Err::<Vec<TextureWork>, RenderError>(
            sync_error(*d, heap.records@),
        ),
        !sync_fails(*d, heap.records@) ==> (r matches Ok(w) && w@ == step_work(
            *d,
            heap.records@.len() as usize,
        )),
{
    proof {
        reveal(step_work);
        reveal(sync_fails);
        reveal(sync_error);
    }
    match d.status {
        TextureStatus::Ready | TextureStatus::Destroyed | TextureStatus::WantDestroy => {
            return Ok(Vec::new());
        },
        _ => {},
    }
    if d.width == 0 || d.height == 0 || d.pixels.is_none() {
        return Ok(Vec::new());
    }
    let width = d.width;
    let height = d.height;
    let create = match d.status {
        TextureStatus::WantCreate => true,
        _ => d.tex_id.is_none(),
    };
    if create {
        let handle = heap.len();
        let mut work: Vec<TextureWork> = Vec::new();
        work.push(TextureWork::Create { handle, width, height });
        work.push(TextureWork::Upload { handle, rect: UpdateRect { x: 0, y: 0, w: width, h: height } });
        assert(work@ =~= step_work(*d, heap.records@.len() as usize));
        return Ok(work);
    }
    let handle = match d.tex_id {
        Some(h) => h,
        None => {
            return Ok(Vec::new());
        },
    };
    let rects = collect_update_regions(d);
    if rects.len() > 0 {
        let rec = heap.get(handle);
        if rec.width != width || rec.height != height {
            return Err(
                RenderError::DimensionMismatch {
                    expected_width: rec.width,
                    expected_height: rec.height,
                    width,
                    height,
                },
            );
        }
    }
    let mut work: Vec<TextureWork> = Vec::new();
    let mut k: usize = 0;
    while k < rects.len()
        invariant
            0 <= k <= rects@.len(),
            rects@ == update_regions(*d),
            width == d.width && height == d.height,
            d.tex_id == Some(handle),
            handle < heap.records@.len(),
            wants_update(*d),
            rects@.len() > 0 ==> heap.records@[handle as int].width == width
                && heap.records@[handle as int].height == height,
            forall|i: int| 0 <= i < k ==> rect_inside(#[trigger] rects@[i], width, height),
            work@ == upload_works(handle, rects@.take(k as int)),
        decreases rects@.len() - k,
    {
        let rect = rects[k];
        if rect.x as u64 + rect.w as u64 > width as u64 || rect.y as u64 + rect.h as u64
            > height as u64 {
            assert(!rect_inside(rects@[k as int], width, height));
            proof {
                reveal(sync_fails);
                reveal(sync_error);
            }
            return Err(RenderError::MappingFailure);
        }
        work.push(TextureWork::Upload { handle, rect });
        proof {
            let tk = rects@.take(k as int);
            let tk1 = rects@.take(k as int + 1);
            assert(upload_works(handle, tk1) =~= upload_works(handle, tk).push(
                TextureWork::Upload { handle, rect },
            ));
        }
        k = k + 1;
    }
    proof {
        assert(rects@.take(rects@.len() as int) =~= rects@);
    }
    Ok(work)
}

proof fn lemma_row_major_before(w: int, c: int, rr: int, col: int, row: int)
    requires
        0 <= c,
        0 <= rr,
        0 <= col <= w,
        (rr < row && c < w) || (rr == row && c < col),
    ensures
        texel_index(w, c, rr) < texel_index(w, col, row),
{
    if rr < row {
        assert(rr * w + c < row * w + col) by (nonlinear_arith)
            requires
                rr < row,
                0 <= c < w,
                0 <= col,
        ;
    }
}

/// The converted texels of the region `rect` of the descriptor's image, row
/// by row: what the device texture is given inside that region.
pub fn region_texels(d: &TextureDescriptor, rect: UpdateRect) -> (r: Vec<ColorBytes>)
    requires
        d.wf(),
        d.pixels.is_some(),
        rect_inside(rect, d.width, d.height),
    ensures
        r@.len() == rect.w as int * rect.h as int,
        forall|c: int, rr: int|
            #![trigger texel_index(rect.w as int, c, rr)]
            0 <= c < rect.w && 0 <= rr < rect.h ==> r@[texel_index(rect.w as int, c, rr)]
                == source_texel(
                pixel_bytes(*d),
                (rect.y + rr) * d.pitch + (rect.x + c) * d.bytes_per_pixel,
                d.bytes_per_pixel as int,
            ),
{
    let data = match &d.pixels {
        Some(p) => p,
        None => {
            return Vec::new();
        },
    };
    let pitch = d.pitch;
    let bpp = d.bytes_per_pixel;
    let dlen = data.len();
    let mut out: Vec<ColorBytes> = Vec::new();
    let mut row: u32 = 0;
    while row < rect.h
        invariant
            0 <= row <= rect.h,
            data@ == pixel_bytes(*d),
            dlen == data@.len(),
            pitch == d.pitch && bpp == d.bytes_per_pixel,
            source_fits(data@.len() as int, d.width as int, d.height as int, pitch as int, bpp as int),
            rect_inside(rect, d.width, d.height),
            out@.len() == row as int * rect.w as int,
            forall|c: int, rr: int|
                #![trigger texel_index(rect.w as int, c, rr)]
                0 <= c < rect.w && 0 <= rr < row ==> out@[texel_index(rect.w as int, c, rr)]
                    == source_texel(data@, (rect.y + rr) * pitch + (rect.x + c) * bpp, bpp as int),
        decreases rect.h - row,
    {
        let py: usize = rect.y as usize + row as usize;
        let mut col: u32 = 0;
        while col < rect.w
            invariant
                0 <= row < rect.h,
                0 <= col <= rect.w,
                py == rect.y + row,
                data@ == pixel_bytes(*d),
                dlen == data@.len(),
                pitch == d.pitch && bpp == d.bytes_per_pixel,
                source_fits(
                    data@.len() as int,
                    d.width as int,
                    d.height as int,
                    pitch as int,
                    bpp as int,
                ),
                rect_inside(rect, d.width, d.height),
                out@.len() == row as int * rect.w as int + col,
                forall|c: int, rr: int|
                    #![trigger texel_index(rect.w as int, c, rr)]
                    0 <= c < rect.w && 0 <= rr <= row && (rr < row || c < col) ==> out@[texel_index(
                        rect.w as int,
                        c,
                        rr,
                    )] == source_texel(data@, (rect.y + rr) * pitch + (rect.x + c) * bpp, bpp as int),
            decreases rect.w - col,
        {
            let px: usize = rect.x as usize + col as usize;
            proof {
                lemma_source_bound(
                    data@.len() as int,
                    d.width as int,
                    d.height as int,
                    pitch as int,
                    bpp as int,
                    px as int,
                    py as int,
                );
            }
            let src: usize = py * pitch + px * bpp;
            let t = texel_from_source(data, src, bpp);
            let ghost prev = out@;
            out.push(t);
            proof {
                assert(texel_index(rect.w as int, col as int, row as int) == prev.len());
                assert forall|c: int, rr: int|
                    #![trigger texel_index(rect.w as int, c, rr)]
                    0 <= c < rect.w && 0 <= rr <= row && (rr < row || c < col + 1) implies out@[texel_index(
                        rect.w as int,
                        c,
                        rr,
                    )] == source_texel(data@, (rect.y + rr) * pitch + (rect.x + c) * bpp, bpp as int) by {
                    if rr < row || c < col {
                        lemma_row_major_before(rect.w as int, c, rr, col as int, row as int);
                        assert(out@[texel_index(rect.w as int, c, rr)] == prev[texel_index(rect.w as int, c, rr)]);
                    }
                }
            }
            col = col + 1;
        }
        proof {
            assert((row as int + 1) * rect.w as int == row as int * rect.w as int + rect.w as int) by (nonlinear_arith);
        }
        row = row + 1;
    }
    assert(rect.h as int * rect.w as int == rect.w as int * rect.h as int) by (nonlinear_arith);
    out
}

/// A descriptor that asks for destruction becomes `Destroyed` without a handle
/// and asks for no native work; from then on every sync leaves it exactly as it
/// is and asks for no work, whatever handle a new texture would get.
pub proof fn lemma_destroyed_is_final(
    d: TextureDescriptor,
    after: TextureDescriptor,
    later: TextureDescriptor,
    h: usize,
    h2: usize,
)
    requires
        d.status == TextureStatus::WantDestroy,
        synced(d, after, h),
        synced(after, later, h2),
    ensures
        after.status == TextureStatus::Destroyed,
        after.tex_id.is_none(),
        step_work(d, h) == Seq::<TextureWork>::empty(),
        later == after,
        step_work(after, h2) == Seq::<TextureWork>::empty(),
{
    reveal(synced);
    reveal(step_work);
}

} // verus!
