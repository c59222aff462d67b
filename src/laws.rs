use vstd::prelude::*;

use crate::heightfield::{
    east_of, lemma_cell_position, north_of, south_of, stencil_of, stepped, west_of, Heightfield,
    Stencil,
};

verus! {

/// The stencil whose five heights all equal `c`.
pub open spec fn uniform<T>(c: T) -> Stencil<T> {
    Stencil { own: c, north: c, south: c, west: c, east: c }
}

/// On a single-cell grid every neighbour of the cell is the cell itself, so its
/// stencil holds its own height five times and relaxation has nothing to act on.
pub proof fn lemma_single_cell_reflects<T>(z: Seq<T>)
    requires
        z.len() == 1,
    ensures
        north_of(1, 1, 0) == 0,
        south_of(1, 1, 0) == 0,
        west_of(1, 1, 0) == 0,
        east_of(1, 1, 0) == 0,
        stencil_of(z, 1, 1, 0) == uniform(z[0]),
{
}

/// On a flat field, where every height equals `c`, every cell's stencil is
/// uniform in `c`.
pub proof fn lemma_flat_field_stencils<T>(z: Seq<T>, width: int, height: int, c: T)
    requires
        width > 0,
        height > 0,
        z.len() == width * height,
        forall|i: int| 0 <= i < z.len() ==> #[trigger] z[i] == c,
    ensures
        forall|i: int|
            0 <= i < z.len() ==> #[trigger] stencil_of(z, width, height, i) == uniform(c),
{
    assert forall|i: int| 0 <= i < z.len() implies #[trigger] stencil_of(z, width, height, i)
        == uniform(c) by {
        lemma_cell_position(width, height, i);
    }
}

/// A step from a flat field at rest hands each velocity rule the old velocity
/// and the uniform stencil, and each height rule the old height and the new
/// velocity: where the rules leave a level surface at rest unchanged, so does
/// the step.
pub proof fn lemma_flat_field_at_rest<T, F: Fn(T, Stencil<T>) -> T, G: Fn(T, T) -> T>(
    before: Heightfield<T>,
    after: Heightfield<T>,
    velocity_rule: F,
    height_rule: G,
    c: T,
    rest: T,
)
    requires
        before.wf(),
        stepped(before, after, velocity_rule, height_rule),
        forall|i: int| 0 <= i < before.cells() ==> #[trigger] before.z@[i] == c,
        forall|i: int| 0 <= i < before.cells() ==> #[trigger] before.dz@[i] == rest,
        forall|r: T| velocity_rule.ensures((rest, uniform(c)), r) ==> r == rest,
        forall|r: T| height_rule.ensures((c, rest), r) ==> r == c,
    ensures
        after.z@ == before.z@,
        after.dz@ == before.dz@,
{
    let n = before.cells();
    lemma_flat_field_stencils(before.z@, before.width as int, before.height as int, c);
    assert forall|i: int| 0 <= i < n implies #[trigger] after.dz@[i] == before.dz@[i] by {
        assert(stencil_of(before.z@, before.width as int, before.height as int, i) == uniform(c));
    }
    assert forall|i: int| 0 <= i < n implies #[trigger] after.z@[i] == before.z@[i] by {
        assert(after.dz@[i] == rest);
    }
    assert(after.dz@ =~= before.dz@);
    assert(after.z@ =~= before.z@);
}

/// Whatever bound every outcome of the height rule obeys, every height obeys
/// after a step.
pub proof fn lemma_heights_within<T, F: Fn(T, Stencil<T>) -> T, G: Fn(T, T) -> T>(
    before: Heightfield<T>,
    after: Heightfield<T>,
    velocity_rule: F,
    height_rule: G,
    within: spec_fn(T) -> bool,
)
    requires
        stepped(before, after, velocity_rule, height_rule),
        forall|h: T, v: T, r: T| height_rule.ensures((h, v), r) ==> within(r),
    ensures
        forall|i: int| 0 <= i < after.cells() ==> within(#[trigger] after.z@[i]),
{
    assert forall|i: int| 0 <= i < after.cells() implies within(#[trigger] after.z@[i]) by {
        assert(height_rule.ensures((before.z@[i], after.dz@[i]), after.z@[i]));
    }
}

} // verus!
