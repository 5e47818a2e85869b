use vstd::prelude::*;

use crate::frame::{Frame, FrameCommand};

verus! {

/// How an entity's world-space bounding sphere relates to the camera's view frustum.
#[derive(Clone, Copy, Debug, PartialEq, Eq, Structural)]
pub enum Relation {
    /// Entirely inside the frustum.
    In,
    /// Crosses the frustum's boundary: partly inside.
    Cross,
    /// Entirely outside the frustum.
    Out,
}

/// Whether a world slot holds an entity that is drawn: any entity whose bounding sphere is not
/// entirely outside the frustum. Partial overlap is drawn.
pub open spec fn is_drawn(slot: Option<Relation>) -> bool {
    match slot {
        Some(relation) => relation != Relation::Out,
        None => false,
    }
}

/// The draws of a geometry pass over the world's slots, in slot order.
pub open spec fn entity_draws<U>(world: Seq<Option<Relation>>) -> Seq<FrameCommand<U>>
    decreases world.len(),
{
    if world.len() == 0 {
        Seq::empty()
    } else {
        let earlier = entity_draws(world.drop_last());
        if is_drawn(world.last()) {
            earlier.push(FrameCommand::DrawEntity((world.len() - 1) as usize))
        } else {
            earlier
        }
    }
}

/// The commands of a geometry pass: the pass begins, each drawn entity is drawn, the pass ends.
pub open spec fn geometry_pass<U>(world: Seq<Option<Relation>>) -> Seq<FrameCommand<U>> {
    seq![FrameCommand::BeginGeometryPass].add(entity_draws(world)).add(
        seq![FrameCommand::EndGeometryPass],
    )
}

/// Records the geometry pass of each frame. `S` is the sampler that the pass reads the
/// entities' material textures through.
pub struct GeometryRenderer<S> {
    pub linear_sampler: S,
}

impl<S> GeometryRenderer<S> {
    pub fn new(linear_sampler: S) -> (r: Self)
        ensures
            r.linear_sampler == linear_sampler,
    {
        GeometryRenderer { linear_sampler }
    }

    /// Appends the geometry pass to the frame's commands. `world` holds one entry per slot of
    /// the world: `None` for an empty slot, else how the entity's bounding sphere relates to the
    /// view frustum. Entities entirely outside the frustum are not drawn.
    pub fn build_command_buffer<B, F, U>(
        &self,
        frame: &mut Frame<B, F, U>,
        world: &Vec<Option<Relation>>,
    )
        ensures
            final(frame).commands@ == old(frame).commands@ + geometry_pass::<U>(world@),
            final(frame).framebuffer == old(frame).framebuffer,
            final(frame).image_num == old(frame).image_num,
            final(frame).future == old(frame).future,
    {
        let ghost start = frame.commands@;
        frame.commands.push(FrameCommand::BeginGeometryPass);
        let mut i: usize = 0;
        while i < world.len()
            invariant
                i <= world.len(),
                frame.commands@ == start + seq![FrameCommand::BeginGeometryPass].add(
                    entity_draws::<U>(world@.subrange(0, i as int)),
                ),
                frame.framebuffer == old(frame).framebuffer,
                frame.image_num == old(frame).image_num,
                frame.future == old(frame).future,
            decreases world.len() - i,
        {
            let ghost done = world@.subrange(0, i as int);
            assert(world@.subrange(0, i + 1).drop_last() == done);
            let drawn = match world[i] {
                Some(relation) => relation != Relation::Out,
                None => false,
            };
            if drawn {
                frame.commands.push(FrameCommand::DrawEntity(i));
            }
            i = i + 1;
        }
        assert(world@.subrange(0, world.len() as int) == world@);
        frame.commands.push(FrameCommand::EndGeometryPass);
    }
}

/// Every draw of a geometry pass names a slot of the world whose entity is drawn.
pub proof fn lemma_entity_draws_are_drawn<U>(world: Seq<Option<Relation>>)
    requires
        world.len() <= usize::MAX,
    ensures
        forall|k: int|
            0 <= k < entity_draws::<U>(world).len() ==> {
                &&& (#[trigger] entity_draws::<U>(world)[k]) is DrawEntity
                &&& 0 <= entity_draws::<U>(world)[k]->DrawEntity_0 < world.len()
                &&& is_drawn(world[entity_draws::<U>(world)[k]->DrawEntity_0 as int])
            },
    decreases world.len(),
{
    if world.len() > 0 {
        let earlier = world.drop_last();
        lemma_entity_draws_are_drawn::<U>(earlier);
        assert forall|j: int| 0 <= j < earlier.len() implies earlier[j] == world[j] by {}
    }
}

/// An entity whose bounding sphere lies entirely outside the view frustum gets no draw in the
/// geometry pass.
pub proof fn lemma_culled_entities_not_drawn<U>(world: Seq<Option<Relation>>, i: int)
    requires
        world.len() <= usize::MAX,
        0 <= i < world.len(),
        world[i] == Some(Relation::Out),
    ensures
        !geometry_pass::<U>(world).contains(FrameCommand::DrawEntity(i as usize)),
{
    lemma_entity_draws_are_drawn::<U>(world);
    let pass = geometry_pass::<U>(world);
    let draws = entity_draws::<U>(world);
    if pass.contains(FrameCommand::DrawEntity(i as usize)) {
        let k = choose|k: int| 0 <= k < pass.len() && pass[k] == FrameCommand::<U>::DrawEntity(i as usize);
        assert(pass[k] == draws[k - 1]);
        assert(draws[k - 1]->DrawEntity_0 == i);
    }
}

/// Every entity whose bounding sphere is not entirely outside the view frustum, partial overlap
/// included, is drawn in the geometry pass.
pub proof fn lemma_visible_entities_drawn<U>(world: Seq<Option<Relation>>, i: int)
    requires
        world.len() <= usize::MAX,
        0 <= i < world.len(),
        is_drawn(world[i]),
    ensures
        geometry_pass::<U>(world).contains(FrameCommand::DrawEntity(i as usize)),
    decreases world.len(),
{
    let draws = entity_draws::<U>(world);
    if i < world.len() - 1 {
        let earlier = world.drop_last();
        lemma_visible_entities_drawn::<U>(earlier, i);
        let k = choose|k: int|
            0 <= k < geometry_pass::<U>(earlier).len() && geometry_pass::<U>(earlier)[k]
                == FrameCommand::<U>::DrawEntity(i as usize);
        assert(draws[k - 1] == FrameCommand::<U>::DrawEntity(i as usize));
        assert(geometry_pass::<U>(world)[k] == draws[k - 1]);
    } else {
        assert(geometry_pass::<U>(world)[draws.len() as int] == draws[draws.len() - 1]);
    }
}

} // verus!
