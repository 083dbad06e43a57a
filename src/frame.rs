use vstd::prelude::*;
use crate::color::{ColorBytes, swap_channels, swapped};

verus! {

/// A vertex as the GUI library hands it over. Position and texture coordinate
/// are carried as the bit patterns of their 32-bit floats.
#[derive(Clone, Copy, PartialEq, Eq, Structural, Debug)]
pub struct Vertex {
    pub x: u32,
    pub y: u32,
    pub u: u32,
    pub v: u32,
    pub col: ColorBytes,
}

/// A vertex in the layout of the native vertex buffer: position with a zero
/// depth, color in native channel order, texture coordinate.
#[derive(Clone, Copy, PartialEq, Eq, Structural, Debug)]
pub struct NativeVertex {
    pub x: u32,
    pub y: u32,
    pub z: u32,
    pub col: ColorBytes,
    pub u: u32,
    pub v: u32,
}

/// A scissor rectangle in render-target pixels, relative to the display origin.
#[derive(Clone, Copy, PartialEq, Eq, Structural, Debug)]
pub struct ScissorRect {
    pub left: i32,
    pub top: i32,
    pub right: i32,
    pub bottom: i32,
}

#[derive(Clone, Copy, PartialEq, Eq, Structural, Debug)]
pub enum DrawCommand {
    /// Draw `count` indices of the list, from `idx_offset` on, with vertex
    /// indices counted from `vtx_offset`, textured by `texture`.
    Elements { count: usize, scissor: ScissorRect, texture: usize, vtx_offset: usize, idx_offset: usize },
    /// Set the render state up again.
    ResetRenderState,
    /// Hand control to the caller's callback stored with the command.
    RawCallback,
}

pub struct DrawList {
    pub vertices: Vec<Vertex>,
    pub indices: Vec<u16>,
    pub commands: Vec<DrawCommand>,
}

/// One frame's draw lists, in order.
pub struct DrawData {
    pub lists: Vec<DrawList>,
}

/// One native call of a frame, in the order in which they are to be made.
#[derive(Clone, Copy, PartialEq, Eq, Structural, Debug)]
pub enum DeviceCall {
    /// Apply the fixed render state: viewport, blending, scissor test, texture
    /// stage, transforms, and the two buffers.
    SetupRenderState,
    SetTexture { handle: usize },
    SetScissor { rect: ScissorRect },
    /// An indexed triangle-list draw over the flattened buffers.
    DrawIndexed { base_vertex: usize, num_vertices: usize, start_index: usize, prim_count: usize },
    /// Run the callback of command `command` of list `list`.
    Callback { list: usize, command: usize },
}

pub open spec fn native_vertex(v: Vertex) -> NativeVertex {
    NativeVertex { x: v.x, y: v.y, z: 0, col: swapped(v.col), u: v.u, v: v.v }
}

pub open spec fn converted_vertices(vs: Seq<Vertex>) -> Seq<NativeVertex> {
    vs.map_values(|v: Vertex| native_vertex(v))
}

/// The vertices of all lists, converted and flattened in list order.
pub open spec fn flat_vertices(lists: Seq<DrawList>) -> Seq<NativeVertex>
    decreases lists.len(),
{
    if lists.len() == 0 {
        seq![]
    } else {
        flat_vertices(lists.drop_last()) + converted_vertices(lists.last().vertices@)
    }
}

/// The indices of all lists, flattened in list order.
pub open spec fn flat_indices(lists: Seq<DrawList>) -> Seq<u16>
    decreases lists.len(),
{
    if lists.len() == 0 {
        seq![]
    } else {
        flat_indices(lists.drop_last()) + lists.last().indices@
    }
}

pub open spec fn scissor_degenerate(r: ScissorRect) -> bool {
    r.right <= r.left || r.bottom <= r.top
}

/// The calls issued so far, and the texture bound last.
pub struct CallState {
    pub calls: Seq<DeviceCall>,
    pub bound: Option<usize>,
}

/// The effect of command `ci` of list `li`, whose vertices and indices start at
/// `vbase` and `ibase` in the flattened buffers. A draw with an empty scissor
/// rectangle is skipped; a texture is bound only where it differs from the one
/// bound last.
pub open spec fn command_step(
    s: CallState,
    cmd: DrawCommand,
    li: nat,
    ci: nat,
    vbase: nat,
    ibase: nat,
    nverts: nat,
) -> CallState {
    match cmd {
        DrawCommand::Elements { count, scissor, texture, vtx_offset, idx_offset } => {
            if scissor_degenerate(scissor) {
                s
            } else {
                let bind = if s.bound == Some(texture) {
                    seq![]
                } else {
                    seq![DeviceCall::SetTexture { handle: texture }]
                };
                CallState {
                    calls: s.calls + bind + seq![
                        DeviceCall::SetScissor { rect: scissor },
                        DeviceCall::DrawIndexed {
                            base_vertex: (vtx_offset + vbase) as usize,
                            num_vertices: nverts as usize,
                            start_index: (idx_offset + ibase) as usize,
                            prim_count: count / 3,
                        },
                    ],
                    bound: Some(texture),
                }
            }
        },
        DrawCommand::ResetRenderState => CallState {
            calls: s.calls.push(DeviceCall::SetupRenderState),
            bound: s.bound,
        },
        DrawCommand::RawCallback => CallState {
            calls: s.calls.push(DeviceCall::Callback { list: li as usize, command: ci as usize }),
            bound: s.bound,
        },
    }
}

/// The state after the commands `cmds` of list `li`.
pub open spec fn run_commands(
    s: CallState,
    cmds: Seq<DrawCommand>,
    li: nat,
    vbase: nat,
    ibase: nat,
    nverts: nat,
) -> CallState
    decreases cmds.len(),
{
    if cmds.len() == 0 {
        s
    } else {
        command_step(
            run_commands(s, cmds.drop_last(), li, vbase, ibase, nverts),
            cmds.last(),
            li,
            (cmds.len() - 1) as nat,
            vbase,
            ibase,
            nverts,
        )
    }
}

/// The state after every command of `lists`.
pub open spec fn run_lists(s: CallState, lists: Seq<DrawList>) -> CallState
    decreases lists.len(),
{
    if lists.len() == 0 {
        s
    } else {
        let prev = lists.drop_last();
        let l = lists.last();
        run_commands(
            run_lists(s, prev),
            l.commands@,
            prev.len(),
            flat_vertices(prev).len(),
            flat_indices(prev).len(),
            l.vertices@.len(),
        )
    }
}

/// The calls of a frame: the render state is set up once, then each list's
/// commands follow in order.
pub open spec fn frame_calls(lists: Seq<DrawList>) -> Seq<DeviceCall> {
    run_lists(CallState { calls: seq![DeviceCall::SetupRenderState], bound: None }, lists).calls
}

pub open spec fn draw_count(calls: Seq<DeviceCall>) -> nat
    decreases calls.len(),
{
    if calls.len() == 0 {
        0
    } else {
        draw_count(calls.drop_last()) + if calls.last() is DrawIndexed {
            1nat
        } else {
            0nat
        }
    }
}

impl DrawList {
    /// Each draw command's offsets, added to any position in flattened buffers
    /// of `nv` vertices and `ni` indices, stay addressable.
    pub open spec fn offsets_fit(&self, nv: nat, ni: nat) -> bool {
        forall|i: int|
            0 <= i < self.commands@.len() ==> match #[trigger] self.commands@[i] {
                DrawCommand::Elements { vtx_offset, idx_offset, .. } => vtx_offset + nv
                    <= usize::MAX && idx_offset + ni <= usize::MAX,
                _ => true,
            }
    }
}

impl DrawData {
    /// The flattened buffers fit in memory, and no draw offset added to a
    /// position in them overflows.
    pub open spec fn wf(&self) -> bool {
        &&& forall|i: int|
            0 <= i < self.lists@.len() ==> (#[trigger] self.lists@[i]).offsets_fit(
                flat_vertices(self.lists@).len(),
                flat_indices(self.lists@).len(),
            )
        &&& flat_vertices(self.lists@).len() <= usize::MAX
        &&& flat_indices(self.lists@).len() <= usize::MAX
        &&& self.lists@.len() <= usize::MAX
    }
}

pub fn convert_vertex(v: Vertex) -> (r: NativeVertex)
    ensures
        r == native_vertex(v),
{
    NativeVertex { x: v.x, y: v.y, z: 0, col: swap_channels(v.col), u: v.u, v: v.v }
}

proof fn lemma_flat_prefix(lists: Seq<DrawList>, i: int)
    requires
        0 <= i < lists.len(),
    ensures
        flat_vertices(lists.take(i + 1)) == flat_vertices(lists.take(i)) + converted_vertices(
            lists[i].vertices@,
        ),
        flat_indices(lists.take(i + 1)) == flat_indices(lists.take(i)) + lists[i].indices@,
        flat_vertices(lists.take(i)).len() <= flat_vertices(lists.take(i + 1)).len(),
{
    assert(lists.take(i + 1).drop_last() =~= lists.take(i));
    assert(lists.take(i + 1).last() == lists[i]);
}

proof fn lemma_flat_monotone(lists: Seq<DrawList>, i: int)
    requires
        0 <= i <= lists.len(),
    ensures
        flat_vertices(lists.take(i)).len() <= flat_vertices(lists).len(),
        flat_indices(lists.take(i)).len() <= flat_indices(lists).len(),
    decreases lists.len() - i,
{
    if i < lists.len() {
        lemma_flat_prefix(lists, i);
        lemma_flat_monotone(lists, i + 1);
    } else {
        assert(lists.take(i) =~= lists);
    }
}

/// Appends the converted vertices of `vs` to `out`.
fn push_vertices(out: &mut Vec<NativeVertex>, vs: &Vec<Vertex>)
    ensures
        final(out)@ == old(out)@ + converted_vertices(vs@),
{
    let mut j: usize = 0;
    while j < vs.len()
        invariant
            0 <= j <= vs@.len(),
            out@ == old(out)@ + converted_vertices(vs@.take(j as int)),
        decreases vs@.len() - j,
    {
        let nv = convert_vertex(vs[j]);
        out.push(nv);
        proof {
            assert(converted_vertices(vs@.take(j as int + 1)) =~= converted_vertices(
                vs@.take(j as int),
            ).push(nv));
        }
        j = j + 1;
    }
    proof {
        assert(vs@.take(vs@.len() as int) =~= vs@);
    }
}

/// Appends `is` to `out`.
fn push_indices(out: &mut Vec<u16>, is: &Vec<u16>)
    ensures
        final(out)@ == old(out)@ + is@,
{
    let mut j: usize = 0;
    while j < is.len()
        invariant
            0 <= j <= is@.len(),
            out@ == old(out)@ + is@.take(j as int),
        decreases is@.len() - j,
    {
        out.push(is[j]);
        proof {
            assert(is@.take(j as int + 1) =~= is@.take(j as int).push(is[j as int]));
        }
        j = j + 1;
    }
    proof {
        assert(is@.take(is@.len() as int) =~= is@);
    }
}

/// Flattens the vertices of every list, converting each one's color to native
/// channel order, and the indices of every list, both in list order.
pub fn flatten(dd: &DrawData) -> (r: (Vec<NativeVertex>, Vec<u16>))
    ensures
        r.0@ == flat_vertices(dd.lists@),
        r.1@ == flat_indices(dd.lists@),
{
    let mut vs: Vec<NativeVertex> = Vec::new();
    let mut is: Vec<u16> = Vec::new();
    let mut i: usize = 0;
    while i < dd.lists.len()
        invariant
            0 <= i <= dd.lists@.len(),
            vs@ == flat_vertices(dd.lists@.take(i as int)),
            is@ == flat_indices(dd.lists@.take(i as int)),
        decreases dd.lists@.len() - i,
    {
        let l = &dd.lists[i];
        push_vertices(&mut vs, &l.vertices);
        push_indices(&mut is, &l.indices);
        proof {
            lemma_flat_prefix(dd.lists@, i as int);
        }
        i = i + 1;
    }
    proof {
        assert(dd.lists@.take(dd.lists@.len() as int) =~= dd.lists@);
    }
    (vs, is)
}

proof fn lemma_run_lists_step(s: CallState, lists: Seq<DrawList>, i: int)
    requires
        0 <= i < lists.len(),
    ensures
        run_lists(s, lists.take(i + 1)) == run_commands(
            run_lists(s, lists.take(i)),
            lists[i].commands@,
            i as nat,
            flat_vertices(lists.take(i)).len(),
            flat_indices(lists.take(i)).len(),
            lists[i].vertices@.len(),
        ),
{
    assert(lists.take(i + 1).drop_last() =~= lists.take(i));
    assert(lists.take(i + 1).last() == lists[i]);
}

proof fn lemma_run_commands_step(
    s: CallState,
    cmds: Seq<DrawCommand>,
    c: int,
    li: nat,
    vbase: nat,
    ibase: nat,
    nverts: nat,
)
    requires
        0 <= c < cmds.len(),
    ensures
        run_commands(s, cmds.take(c + 1), li, vbase, ibase, nverts) == command_step(
            run_commands(s, cmds.take(c), li, vbase, ibase, nverts),
            cmds[c],
            li,
            c as nat,
            vbase,
            ibase,
            nverts,
        ),
{
    assert(cmds.take(c + 1).drop_last() =~= cmds.take(c));
    assert(cmds.take(c + 1).last() == cmds[c]);
}

/// The native calls of a frame over the flattened buffers: render-state setup
/// first, then, per command in list order, a draw (with its scissor rectangle,
/// and a texture bind where the texture changes) unless its scissor rectangle
/// is empty, a new setup, or the callback.
pub fn build_calls(dd: &DrawData) -> (r: Vec<DeviceCall>)
    requires
        dd.wf(),
    ensures
        r@ == frame_calls(dd.lists@),
{
    let mut calls: Vec<DeviceCall> = Vec::new();
    calls.push(DeviceCall::SetupRenderState);
    let ghost init = CallState { calls: seq![DeviceCall::SetupRenderState], bound: None };
    assert(calls@ =~= init.calls);
    let mut bound: Option<usize> = None;
    let mut vbase: usize = 0;
    let mut ibase: usize = 0;
    let mut i: usize = 0;
    while i < dd.lists.len()
        invariant
            dd.wf(),
            0 <= i <= dd.lists@.len(),
            (CallState { calls: calls@, bound }) == run_lists(init, dd.lists@.take(i as int)),
            vbase == flat_vertices(dd.lists@.take(i as int)).len(),
            ibase == flat_indices(dd.lists@.take(i as int)).len(),
        decreases dd.lists@.len() - i,
    {
        let l = &dd.lists[i];
        let nverts = l.vertices.len();
        let nidx = l.indices.len();
        proof {
            lemma_flat_prefix(dd.lists@, i as int);
            lemma_flat_monotone(dd.lists@, i as int + 1);
            assert(l.offsets_fit(flat_vertices(dd.lists@).len(), flat_indices(dd.lists@).len()));
        }
        let ghost s0 = run_lists(init, dd.lists@.take(i as int));
        let mut c: usize = 0;
        while c < l.commands.len()
            invariant
                0 <= c <= l.commands@.len(),
                l.offsets_fit(flat_vertices(dd.lists@).len(), flat_indices(dd.lists@).len()),
                vbase + nverts <= flat_vertices(dd.lists@).len(),
                ibase + nidx <= flat_indices(dd.lists@).len(),
                flat_vertices(dd.lists@).len() <= usize::MAX,
                flat_indices(dd.lists@).len() <= usize::MAX,
                nverts == l.vertices@.len(),
                nidx == l.indices@.len(),
                (CallState { calls: calls@, bound }) == run_commands(
                    s0,
                    l.commands@.take(c as int),
                    i as nat,
                    vbase as nat,
                    ibase as nat,
                    nverts as nat,
                ),
            decreases l.commands@.len() - c,
        {
            proof {
                lemma_run_commands_step(s0, l.commands@, c as int, i as nat, vbase as nat, ibase as nat, nverts as nat);
            }
            let ghost before = calls@;
            match l.commands[c] {
                DrawCommand::Elements { count, scissor, texture, vtx_offset, idx_offset } => {
                    assert(l.commands@[c as int] == l.commands[c as int]);
                    if !(scissor.right <= scissor.left || scissor.bottom <= scissor.top) {
                        let same = match bound {
                            Some(b) => b == texture,
                            None => false,
                        };
                        if !same {
                            calls.push(DeviceCall::SetTexture { handle: texture });
                            bound = Some(texture);
                        }
                        calls.push(DeviceCall::SetScissor { rect: scissor });
                        calls.push(
                            DeviceCall::DrawIndexed {
                                base_vertex: vtx_offset + vbase,
                                num_vertices: nverts,
                                start_index: idx_offset + ibase,
                                prim_count: count / 3,
                            },
                        );
                        proof {
                            if same {
                                assert(calls@ =~= before + seq![] + seq![
                                    DeviceCall::SetScissor { rect: scissor },
                                    DeviceCall::DrawIndexed {
                                        base_vertex: (vtx_offset + vbase) as usize,
                                        num_vertices: nverts,
                                        start_index: (idx_offset + ibase) as usize,
                                        prim_count: count / 3,
                                    },
                                ]);
                            } else {
                                assert(calls@ =~= before + seq![DeviceCall::SetTexture { handle: texture }] + seq![
                                    DeviceCall::SetScissor { rect: scissor },
                                    DeviceCall::DrawIndexed {
                                        base_vertex: (vtx_offset + vbase) as usize,
                                        num_vertices: nverts,
                                        start_index: (idx_offset + ibase) as usize,
                                        prim_count: count / 3,
                                    },
                                ]);
                            }
                        }
                    }
                },
                DrawCommand::ResetRenderState => {
                    calls.push(DeviceCall::SetupRenderState);
                },
                DrawCommand::RawCallback => {
                    calls.push(DeviceCall::Callback { list: i, command: c });
                },
            }
            c = c + 1;
        }
        proof {
            assert(l.commands@.take(l.commands@.len() as int) =~= l.commands@);
            lemma_run_lists_step(init, dd.lists@, i as int);
        }
        vbase = vbase + nverts;
        ibase = ibase + nidx;
        i = i + 1;
    }
    proof {
        assert(dd.lists@.take(dd.lists@.len() as int) =~= dd.lists@);
    }
    calls
}

proof fn lemma_no_commands_no_calls(s: CallState, lists: Seq<DrawList>)
    requires
        forall|i: int| 0 <= i < lists.len() ==> (#[trigger] lists[i]).commands@.len() == 0,
    ensures
        run_lists(s, lists) == s,
    decreases lists.len(),
{
    if lists.len() > 0 {
        let prev = lists.drop_last();
        assert forall|i: int| 0 <= i < prev.len() implies (#[trigger] prev[i]).commands@.len() == 0 by {
            assert(prev[i] == lists[i]);
        }
        lemma_no_commands_no_calls(s, prev);
        assert(lists.last() == lists[lists.len() - 1]);
    }
}

/// A frame whose draw lists hold no commands sets the render state up once and
/// makes no draw call.
pub proof fn lemma_empty_frame_draws_nothing(lists: Seq<DrawList>)
    requires
        forall|i: int| 0 <= i < lists.len() ==> (#[trigger] lists[i]).commands@.len() == 0,
    ensures
        frame_calls(lists) == seq![DeviceCall::SetupRenderState],
        draw_count(frame_calls(lists)) == 0,
{
    lemma_no_commands_no_calls(CallState { calls: seq![DeviceCall::SetupRenderState], bound: None }, lists);
    let c = seq![DeviceCall::SetupRenderState];
    assert(c.drop_last() =~= Seq::<DeviceCall>::empty());
    assert(draw_count(c.drop_last()) == 0);
}

} // verus!
