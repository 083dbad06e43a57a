use vstd::prelude::*;
use crate::color::{ColorBytes, texel_from_source, source_texel};
use crate::error::RenderError;

verus! {

/// Position of the texel at column `px` and row `py` in a row-major image
/// `width` texels wide.
pub open spec fn texel_index(width: int, px: int, py: int) -> int {
    py * width + px
}

pub open spec fn in_region(px: int, py: int, x: int, y: int, w: int, h: int) -> bool {
    x <= px < x + w && y <= py < y + h
}

/// What a source buffer must hold for texel conversion: one or four bytes per
/// pixel, rows of `pitch` bytes that hold `width` pixels, and `height` rows.
pub open spec fn source_fits(len: int, width: int, height: int, pitch: int, bpp: int) -> bool {
    &&& (bpp == 1 || bpp == 4)
    &&& pitch >= width * bpp
    &&& len >= pitch * height
}

/// One native texture: its allocated size, and the texels (native channel
/// order, row-major) that it has been given.
pub struct TextureRecord {
    pub width: u32,
    pub height: u32,
    pub texels: Vec<ColorBytes>,
}

impl TextureRecord {
    pub open spec fn wf(&self) -> bool {
        self.texels@.len() == self.width as int * self.height as int
    }

    /// Every texel is the converted source pixel at its position.
    pub open spec fn holds_image(&self, data: Seq<u8>, pitch: int, bpp: int) -> bool {
        forall|px: int, py: int|
            #![trigger texel_index(self.width as int, px, py)]
            0 <= px < self.width && 0 <= py < self.height ==> self.texels@[texel_index(
                self.width as int,
                px,
                py,
            )] == source_texel(data, py * pitch + px * bpp, bpp)
    }

    /// `self` after the texels inside the region `(x, y, w, h)` were replaced by
    /// the converted source pixels, and all others kept.
    pub open spec fn region_written(
        &self,
        old_rec: TextureRecord,
        data: Seq<u8>,
        pitch: int,
        bpp: int,
        x: int,
        y: int,
        w: int,
        h: int,
    ) -> bool {
        &&& self.width == old_rec.width
        &&& self.height == old_rec.height
        &&& self.texels@.len() == old_rec.texels@.len()
        &&& forall|px: int, py: int|
            #![trigger texel_index(self.width as int, px, py)]
            0 <= px < self.width && 0 <= py < self.height ==> self.texels@[texel_index(
                self.width as int,
                px,
                py,
            )] == if in_region(px, py, x, y, w, h) {
                source_texel(data, py * pitch + px * bpp, bpp)
            } else {
                old_rec.texels@[texel_index(self.width as int, px, py)]
            }
    }
}

/// The registry of textures. A handle is the index of its record; handles are
/// handed out in sequence from zero and never reused.
pub struct TextureHeap {
    pub records: Vec<TextureRecord>,
}

proof fn lemma_texel_index_distinct(width: int, px: int, py: int, qx: int, qy: int)
    requires
        0 <= px < width,
        0 <= qx < width,
        0 <= py,
        0 <= qy,
        px != qx || py != qy,
    ensures
        texel_index(width, px, py) != texel_index(width, qx, qy),
{
    if py < qy {
        assert(py * width + px < qy * width + qx) by (nonlinear_arith)
            requires
                py < qy,
                0 <= px < width,
                0 <= qx,
        ;
    } else if qy < py {
        assert(qy * width + qx < py * width + px) by (nonlinear_arith)
            requires
                qy < py,
                0 <= qx < width,
                0 <= px,
        ;
    }
}

proof fn lemma_texel_index_bound(width: int, height: int, px: int, py: int)
    requires
        0 <= px < width,
        0 <= py < height,
    ensures
        0 <= texel_index(width, px, py) < width * height,
{
    assert(0 <= py * width + px < width * height) by (nonlinear_arith)
        requires
            0 <= px < width,
            0 <= py < height,
    ;
}

pub(crate) proof fn lemma_source_bound(
    len: int,
    width: int,
    height: int,
    pitch: int,
    bpp: int,
    px: int,
    py: int,
)
    requires
        source_fits(len, width, height, pitch, bpp),
        0 <= px < width,
        0 <= py < height,
    ensures
        0 <= py * pitch,
        0 <= px * bpp,
        py * pitch + px * bpp + bpp <= len,
{
    assert(0 <= px * bpp && 0 <= py * pitch && px * bpp + bpp <= pitch) by (nonlinear_arith)
        requires
            0 <= px < width,
            0 <= py,
            pitch >= width * bpp,
            bpp >= 1,
    ;
    assert(py * pitch + pitch <= pitch * height) by (nonlinear_arith)
        requires
            0 <= py < height,
            pitch >= 0,
    ;
}

impl TextureHeap {
    pub open spec fn wf(&self) -> bool {
        forall|i: int| 0 <= i < self.records@.len() ==> (#[trigger] self.records@[i]).wf()
    }

    pub fn new() -> (r: Self)
        ensures
            r.wf(),
            r.records@.len() == 0,
    {
        TextureHeap { records: Vec::new() }
    }

    pub fn len(&self) -> (r: usize)
        ensures
            r == self.records@.len(),
    {
        self.records.len()
    }

    /// Records a new texture of exactly `width` by `height` texels and returns its
    /// handle, which no earlier texture has had.
    pub fn create(&mut self, width: u32, height: u32) -> (handle: usize)
        requires
            old(self).wf(),
            width as int * height as int <= usize::MAX,
        ensures
            final(self).wf(),
            handle == old(self).records@.len(),
            final(self).records@.len() == old(self).records@.len() + 1,
            forall|i: int|
                0 <= i < old(self).records@.len() ==> final(self).records@[i] == old(self).records@[i],
            final(self).records@[handle as int].width == width,
            final(self).records@[handle as int].height == height,
    {
        let n: usize = width as usize * height as usize;
        let blank = ColorBytes { b0: 0, b1: 0, b2: 0, b3: 0 };
        let texels = vec![blank; n];
        let handle = self.records.len();
        self.records.push(TextureRecord { width, height, texels });
        proof {
            assert forall|i: int| 0 <= i < self.records@.len() implies (
            #[trigger] self.records@[i]).wf() by {
                if i < handle {
                    assert(self.records@[i] == old(self).records@[i]);
                }
            }
        }
        handle
    }

    /// The record of a live handle.
    pub fn get(&self, handle: usize) -> (r: &TextureRecord)
        requires
            handle < self.records@.len(),
        ensures
            *r == self.records@[handle as int],
    {
        &self.records[handle]
    }

    /// Converts the pixels of the region `(x, y, w, h)` of the source buffer `data`
    /// into the texture `handle`. The texture must have been allocated at `width`
    /// by `height`, else nothing is written and `DimensionMismatch` comes back; a
    /// region that does not lie inside the texture cannot be locked and gives
    /// `MappingFailure`, also without a write.
    pub fn upload_region(
        &mut self,
        handle: usize,
        data: &Vec<u8>,
        width: u32,
        height: u32,
        pitch: usize,
        x: u32,
        y: u32,
        w: u32,
        h: u32,
        bpp: usize,
    ) -> (r: Result<(), RenderError>)
        requires
            old(self).wf(),
            handle < old(self).records@.len(),
            source_fits(data@.len() as int, width as int, height as int, pitch as int, bpp as int),
        ensures
            final(self).wf(),
            final(self).records@.len() == old(self).records@.len(),
            forall|i: int|
                0 <= i < old(self).records@.len() && i != handle ==> final(self).records@[i]
                    == old(self).records@[i],
            ({
                let rec = old(self).records@[handle as int];
                if rec.width != width || rec.height != height {
                    r == Err::<(), RenderError>(
                        RenderError::DimensionMismatch {
                            expected_width: rec.width,
                            expected_height: rec.height,
                            width,
                            height,
                        },
                    ) && final(self).records@ == old(self).records@
                } else if x as int + w as int > width as int || y as int + h as int
                    > height as int {
                    r == Err::<(), RenderError>(RenderError::MappingFailure)
                        && final(self).records@ == old(self).records@
                } else {
                    r == Ok::<(), RenderError>(()) && final(self).records@[handle as int].region_written(
                        rec,
                        data@,
                        pitch as int,
                        bpp as int,
                        x as int,
                        y as int,
                        w as int,
                        h as int,
                    )
                }
            }),
    {
        let ghost old_rec = self.records@[handle as int];
        let rw = self.records[handle].width;
        let rh = self.records[handle].height;
        if rw != width || rh != height {
            return Err(
                RenderError::DimensionMismatch {
                    expected_width: rw,
                    expected_height: rh,
                    width,
                    height,
                },
            );
        }
        if x as u64 + w as u64 > width as u64 || y as u64 + h as u64 > height as u64 {
            return Err(RenderError::MappingFailure);
        }
        let mut rec = self.records.remove(handle);
        assert(rec == old_rec);
        assert(rec.wf()) by {
            assert(old(self).records@[handle as int].wf());
        }
        let ghost before = self.records@;
        let wd = width as usize;
        let dlen = data.len();
        let tlen = rec.texels.len();
        let mut row: u32 = 0;
        while row < h
            invariant
                0 <= row <= h,
                rec.width == width,
                rec.height == height,
                wd == width,
                dlen == data@.len(),
                tlen == rec.texels@.len(),
                x + w <= width,
                y + h <= height,
                rec.texels@.len() == old_rec.texels@.len(),
                old_rec.wf(),
                old_rec.width == width,
                old_rec.height == height,
                source_fits(data@.len() as int, width as int, height as int, pitch as int, bpp as int),
                forall|px: int, py: int|
                    #![trigger texel_index(width as int, px, py)]
                    0 <= px < width && 0 <= py < height ==> rec.texels@[texel_index(
                        width as int,
                        px,
                        py,
                    )] == if in_region(px, py, x as int, y as int, w as int, row as int) {
                        source_texel(data@, py * pitch + px * bpp, bpp as int)
                    } else {
                        old_rec.texels@[texel_index(width as int, px, py)]
                    },
            decreases h - row,
        {
            let py: usize = y as usize + row as usize;
            let mut col: u32 = 0;
            while col < w
                invariant
                    0 <= row < h,
                    0 <= col <= w,
                    py == y + row,
                    rec.width == width,
                    rec.height == height,
                    wd == width,
                    dlen == data@.len(),
                    tlen == rec.texels@.len(),
                    x + w <= width,
                    y + h <= height,
                    rec.texels@.len() == old_rec.texels@.len(),
                    old_rec.wf(),
                    old_rec.width == width,
                    old_rec.height == height,
                    source_fits(
                        data@.len() as int,
                        width as int,
                        height as int,
                        pitch as int,
                        bpp as int,
                    ),
                    forall|px: int, qy: int|
                        #![trigger texel_index(width as int, px, qy)]
                        0 <= px < width && 0 <= qy < height ==> rec.texels@[texel_index(
                            width as int,
                            px,
                            qy,
                        )] == if in_region(px, qy, x as int, y as int, w as int, row as int)
                            || (qy == py && x <= px < x + col) {
                            source_texel(data@, qy * pitch + px * bpp, bpp as int)
                        } else {
                            old_rec.texels@[texel_index(width as int, px, qy)]
                        },
                decreases w - col,
            {
                let px: usize = x as usize + col as usize;
                proof {
                    lemma_texel_index_bound(width as int, height as int, px as int, py as int);
                    lemma_source_bound(
                        data@.len() as int,
                        width as int,
                        height as int,
                        pitch as int,
                        bpp as int,
                        px as int,
                        py as int,
                    );
                }
                let src: usize = py * pitch + px * bpp;
                let t = texel_from_source(data, src, bpp);
                let idx: usize = py * wd + px;
                let ghost prev = rec.texels@;
                rec.texels.set(idx, t);
                proof {
                    assert forall|qx: int, qy: int|
                        #![trigger texel_index(width as int, qx, qy)]
                        0 <= qx < width && 0 <= qy < height implies rec.texels@[texel_index(
                            width as int,
                            qx,
                            qy,
                        )] == if in_region(qx, qy, x as int, y as int, w as int, row as int)
                            || (qy == py && x <= qx < x + col + 1) {
                            source_texel(data@, qy * pitch + qx * bpp, bpp as int)
                        } else {
                            old_rec.texels@[texel_index(width as int, qx, qy)]
                        } by {
                        if qx != px || qy != py {
                            lemma_texel_index_distinct(
                                width as int,
                                qx,
                                qy,
                                px as int,
                                py as int,
                            );
                            lemma_texel_index_bound(width as int, height as int, qx, qy);
                            assert(rec.texels@[texel_index(width as int, qx, qy)] == prev[texel_index(width as int, qx, qy)]);
                        }
                    }
                }
                col = col + 1;
            }
            row = row + 1;
        }
        self.records.insert(handle, rec);
        proof {
            assert(self.records@ =~= before.insert(handle as int, rec));
            assert(rec.wf());
            assert forall|i: int| 0 <= i < self.records@.len() implies (
            #[trigger] self.records@[i]).wf() by {
                if i != handle {
                    assert(self.records@[i] == old(self).records@[i]);
                }
            }
            assert(rec.region_written(
                old_rec,
                data@,
                pitch as int,
                bpp as int,
                x as int,
                y as int,
                w as int,
                h as int,
            ));
        }
        Ok(())
    }

    /// Uploads a whole image of tightly packed four-byte pixels into the texture
    /// `handle`, which must have been allocated at exactly `width` by `height`: a
    /// texture is never resized, and on a mismatch nothing is written.
    pub fn upload(&mut self, handle: usize, data: &Vec<u8>, width: u32, height: u32) -> (r: Result<
        (),
        RenderError,
    >)
        requires
            old(self).wf(),
            handle < old(self).records@.len(),
            data@.len() >= 4 * width as int * height as int,
            4 * width as int <= usize::MAX,
        ensures
            final(self).wf(),
            final(self).records@.len() == old(self).records@.len(),
            forall|i: int|
                0 <= i < old(self).records@.len() && i != handle ==> final(self).records@[i]
                    == old(self).records@[i],
            ({
                let rec = old(self).records@[handle as int];
                if rec.width != width || rec.height != height {
                    r == Err::<(), RenderError>(
                        RenderError::DimensionMismatch {
                            expected_width: rec.width,
                            expected_height: rec.height,
                            width,
                            height,
                        },
                    ) && final(self).records@ == old(self).records@
                } else {
                    r == Ok::<(), RenderError>(()) && final(self).records@[handle as int].region_written(
                        rec,
                        data@,
                        4 * width as int,
                        4,
                        0,
                        0,
                        width as int,
                        height as int,
                    )
                }
            }),
    {
        let pitch: usize = 4 * width as usize;
        assert(source_fits(data@.len() as int, width as int, height as int, pitch as int, 4)) by {
            assert(pitch as int * height as int == 4 * width as int * height as int) by (nonlinear_arith)
                requires pitch as int == 4 * width as int;
        }
        self.upload_region(handle, data, width, height, pitch, 0, 0, width, height, 4)
    }
}

} // verus!
