use vstd::prelude::*;

verus! {

/// The device values that the opaque state block does not cover on this
/// pipeline, and that a backup therefore holds explicitly: world, view and
/// projection transforms, viewport, and render target.
pub struct TrackedState<M, V, T> {
    pub world: M,
    pub view: M,
    pub projection: M,
    pub viewport: V,
    pub render_target: T,
}

/// One step of a restore.
#[derive(Clone, Copy, PartialEq, Eq, Structural, Debug)]
pub enum RestoreStep {
    /// Replay the opaque state block.
    ApplyStateBlock,
    World,
    View,
    Projection,
    Viewport,
    RenderTarget,
}

/// The tracked values after `step` of a restore from `backup`; replaying the
/// opaque block leaves them as they are.
pub open spec fn restore_step<M, V, T>(
    s: TrackedState<M, V, T>,
    step: RestoreStep,
    backup: TrackedState<M, V, T>,
) -> TrackedState<M, V, T> {
    match step {
        RestoreStep::ApplyStateBlock => s,
        RestoreStep::World => TrackedState { world: backup.world, ..s },
        RestoreStep::View => TrackedState { view: backup.view, ..s },
        RestoreStep::Projection => TrackedState { projection: backup.projection, ..s },
        RestoreStep::Viewport => TrackedState { viewport: backup.viewport, ..s },
        RestoreStep::RenderTarget => TrackedState { render_target: backup.render_target, ..s },
    }
}

pub open spec fn run_restore<M, V, T>(
    s: TrackedState<M, V, T>,
    steps: Seq<RestoreStep>,
    backup: TrackedState<M, V, T>,
) -> TrackedState<M, V, T>
    decreases steps.len(),
{
    if steps.len() == 0 {
        s
    } else {
        restore_step(run_restore(s, steps.drop_last(), backup), steps.last(), backup)
    }
}

pub open spec fn restore_order() -> Seq<RestoreStep> {
    seq![
        RestoreStep::ApplyStateBlock,
        RestoreStep::World,
        RestoreStep::View,
        RestoreStep::Projection,
        RestoreStep::Viewport,
        RestoreStep::RenderTarget,
    ]
}

/// The order of a restore: the opaque block first, then the three transforms
/// and the viewport, and the render target last.
pub fn restore_sequence() -> (r: Vec<RestoreStep>)
    ensures
        r@ == restore_order(),
{
    let mut r: Vec<RestoreStep> = Vec::new();
    r.push(RestoreStep::ApplyStateBlock);
    r.push(RestoreStep::World);
    r.push(RestoreStep::View);
    r.push(RestoreStep::Projection);
    r.push(RestoreStep::Viewport);
    r.push(RestoreStep::RenderTarget);
    assert(r@ =~= restore_order());
    r
}

/// Whatever a frame did to the tracked values, success or failure at any
/// point, a full restore from the backup leaves each of them as it was before
/// the frame.
pub proof fn lemma_restore_returns_backup<M, V, T>(
    during: TrackedState<M, V, T>,
    backup: TrackedState<M, V, T>,
)
    ensures
        run_restore(during, restore_order(), backup) == backup,
{
    let o = restore_order();
    assert(o.drop_last().drop_last().drop_last().drop_last().drop_last().drop_last() =~= seq![]);
    assert(o.drop_last().drop_last().drop_last().drop_last().drop_last() =~= seq![RestoreStep::ApplyStateBlock]);
    assert(o.drop_last().drop_last().drop_last().drop_last() =~= seq![RestoreStep::ApplyStateBlock, RestoreStep::World]);
    assert(o.drop_last().drop_last().drop_last() =~= seq![RestoreStep::ApplyStateBlock, RestoreStep::World, RestoreStep::View]);
    assert(o.drop_last().drop_last() =~= seq![RestoreStep::ApplyStateBlock, RestoreStep::World, RestoreStep::View, RestoreStep::Projection]);
    assert(o.drop_last() =~= seq![RestoreStep::ApplyStateBlock, RestoreStep::World, RestoreStep::View, RestoreStep::Projection, RestoreStep::Viewport]);
    reveal_with_fuel(run_restore, 7);
}

} // verus!
