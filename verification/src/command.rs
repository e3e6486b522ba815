//! Recording of a frame: the command stream that draws a scene into one
//! framebuffer.

use crate::device::Extent2D;
use crate::index_buffer::{IndexBuffer, IndexBufferView};
use crate::pipeline::PipelineSet;
use crate::renderable::Renderable;
use crate::vertex_buffer::VertexBuffer;
use vstd::prelude::*;

verus! {

/// Bit pattern of the 32-bit float `0.08`, the blue of the background.
pub const CLEAR_BLUE: u32 = 0x3da3_d70a;

/// Bit pattern of the 32-bit float `1.0`, the alpha of the background.
pub const CLEAR_ALPHA: u32 = 0x3f80_0000;

/// A colour of four 32-bit floats, held as their bit patterns.
#[derive(Clone, Copy, Debug, PartialEq, Eq, Structural)]
pub struct ClearColor {
    pub r: u32,
    pub g: u32,
    pub b: u32,
    pub a: u32,
}

/// One command of a frame's command buffer.
#[derive(Clone, Copy, Debug, PartialEq, Eq, Structural)]
pub enum Command {
    /// Begins the command buffer.
    Begin,
    /// Begins the render pass on a framebuffer, over the whole extent,
    /// clearing to `clear`, with the subpass's commands inline.
    BeginRenderPass { render_pass: u64, framebuffer: u64, extent: Extent2D, clear: ClearColor },
    /// Binds a graphics pipeline.
    BindPipeline { pipeline: u64 },
    /// Binds a buffer of 32-bit indices.
    BindIndexBuffer { buffer: u64, offset: u64 },
    BindVertexBuffer { binding: u32, buffer: u64, offset: u64 },
    DrawIndexed { index_count: u32, instance_count: u32, first_index: u32, vertex_offset: i32, first_instance: u32 },
    Draw { vertex_count: u32, instance_count: u32, first_vertex: u32, first_instance: u32 },
    EndRenderPass,
    /// Ends the command buffer.
    End,
}

/// The dark blue every frame is cleared to.
pub open spec fn background() -> ClearColor {
    ClearColor { r: 0, g: 0, b: CLEAR_BLUE, a: CLEAR_ALPHA }
}

/// The number of vertices a plain draw of a renderable covers: the count
/// last written to its first vertex buffer, and zero without one.
pub open spec fn live_vertex_count(vertex_buffers: Seq<VertexBuffer>) -> u32 {
    if vertex_buffers.len() > 0 {
        vertex_buffers[0]@.vert_count
    } else {
        0
    }
}

/// The one draw of a renderable: an indexed draw of every index last
/// written when there is an index buffer, else a plain draw of the live
/// vertices; one instance, from the first element.
pub open spec fn draw_of(vertex_buffers: Seq<VertexBuffer>, index_buffer: Option<IndexBufferView>) -> Command {
    match index_buffer {
        Some(ib) => Command::DrawIndexed {
            index_count: ib.indice_count,
            instance_count: 1,
            first_index: 0,
            vertex_offset: 0,
            first_instance: 0,
        },
        None => Command::Draw {
            vertex_count: live_vertex_count(vertex_buffers),
            instance_count: 1,
            first_vertex: 0,
            first_instance: 0,
        },
    }
}

/// Each vertex buffer is bound in order, buffer `i` at binding `i`.
pub open spec fn bind_commands(vertex_buffers: Seq<VertexBuffer>) -> Seq<Command> {
    Seq::new(
        vertex_buffers.len(),
        |i: int| Command::BindVertexBuffer { binding: i as u32, buffer: vertex_buffers[i]@.buffer, offset: 0 },
    )
}

/// The view of an optional index buffer.
pub open spec fn index_view(index_buffer: Option<IndexBuffer>) -> Option<IndexBufferView> {
    match index_buffer {
        Some(ib) => Some(ib@),
        None => None,
    }
}

/// The binding of the index buffer, if there is one.
pub open spec fn index_commands(index_buffer: Option<IndexBuffer>) -> Seq<Command> {
    match index_buffer {
        Some(ib) => seq![Command::BindIndexBuffer { buffer: ib@.buffer, offset: 0 }],
        None => Seq::<Command>::empty(),
    }
}

/// The vertex buffers of the renderable can each be given a binding
/// number, which has 32 bits.
pub open spec fn recordable(renderable: Renderable) -> bool {
    renderable.vertex_buffers@.len() <= u32::MAX
}

/// Every renderable of the scene is recordable.
pub open spec fn scene_recordable(renderables: Seq<Renderable>) -> bool {
    forall|i: int| 0 <= i < renderables.len() ==> recordable(#[trigger] renderables[i])
}

/// The commands of one renderable: its pipeline is bound, then its index
/// buffer if it has one, then its vertex buffers, and then it is drawn,
/// once.
pub open spec fn renderable_commands(renderable: Renderable, pipelines: PipelineSet) -> Seq<Command> {
    seq![Command::BindPipeline { pipeline: pipelines.lookup(renderable.pipeline_selector).pipeline }]
        + index_commands(renderable.index_buffer) + bind_commands(renderable.vertex_buffers@) + seq![
        draw_of(renderable.vertex_buffers@, index_view(renderable.index_buffer)),
    ]
}

/// The commands of the renderables, in submission order.
pub open spec fn scene_commands(renderables: Seq<Renderable>, pipelines: PipelineSet) -> Seq<Command>
    decreases renderables.len(),
{
    if renderables.len() == 0 {
        Seq::<Command>::empty()
    } else {
        scene_commands(renderables.drop_last(), pipelines) + renderable_commands(renderables.last(), pipelines)
    }
}

/// The whole command buffer of a frame.
pub open spec fn frame_commands(
    render_pass: u64,
    framebuffer: u64,
    extent: Extent2D,
    renderables: Seq<Renderable>,
    pipelines: PipelineSet,
) -> Seq<Command> {
    seq![
        Command::Begin,
        Command::BeginRenderPass { render_pass, framebuffer, extent, clear: background() },
    ] + scene_commands(renderables, pipelines) + seq![Command::EndRenderPass, Command::End]
}

/// The command is a draw of the asked kind: indexed, or plain.
pub open spec fn is_draw(command: Command, indexed: bool) -> bool {
    if indexed {
        command is DrawIndexed
    } else {
        command is Draw
    }
}

/// The number of draws of one kind among `commands`.
pub open spec fn count_draws(commands: Seq<Command>, indexed: bool) -> nat
    decreases commands.len(),
{
    if commands.len() == 0 {
        0
    } else {
        count_draws(commands.drop_last(), indexed) + if is_draw(commands.last(), indexed) {
            1nat
        } else {
            0nat
        }
    }
}

/// The number of renderables that have an index buffer.
pub open spec fn indexed_renderables(renderables: Seq<Renderable>) -> nat
    decreases renderables.len(),
{
    if renderables.len() == 0 {
        0
    } else {
        indexed_renderables(renderables.drop_last()) + if renderables.last().index_buffer is Some {
            1nat
        } else {
            0nat
        }
    }
}

/// The draws of two command lists add up when the lists are joined.
pub proof fn lemma_count_draws_joined(first: Seq<Command>, second: Seq<Command>, indexed: bool)
    ensures
        count_draws(first + second, indexed) == count_draws(first, indexed) + count_draws(second, indexed),
    decreases second.len(),
{
    if second.len() == 0 {
        assert(first + second =~= first);
    } else {
        assert((first + second).drop_last() =~= first + second.drop_last());
        assert((first + second).last() == second.last());
        lemma_count_draws_joined(first, second.drop_last(), indexed);
    }
}

/// Commands among which none is a draw hold no draw.
pub proof fn lemma_count_draws_none(commands: Seq<Command>, indexed: bool)
    requires
        forall|k: int| 0 <= k < commands.len() ==> !is_draw(#[trigger] commands[k], indexed),
    ensures
        count_draws(commands, indexed) == 0,
    decreases commands.len(),
{
    if commands.len() > 0 {
        assert(commands.last() == commands[commands.len() - 1]);
        assert forall|k: int| 0 <= k < commands.drop_last().len() implies !is_draw(
            #[trigger] commands.drop_last()[k],
            indexed,
        ) by {
            assert(commands.drop_last()[k] == commands[k]);
        }
        lemma_count_draws_none(commands.drop_last(), indexed);
    }
}

/// A renderable is drawn exactly once, by the last of its commands. With
/// an index buffer the draw is indexed and counts the indices last
/// written to it; without one the draw is plain, counts the vertices
/// last written to the first vertex buffer, and no index buffer is
/// bound. Either way it draws one instance.
pub proof fn lemma_renderable_draws(renderable: Renderable, pipelines: PipelineSet)
    ensures
        renderable_commands(renderable, pipelines).len() >= 2,
        forall|k: int|
            0 <= k < renderable_commands(renderable, pipelines).len() - 1 ==> {
                let c = #[trigger] renderable_commands(renderable, pipelines)[k];
                &&& !(c is Draw)
                &&& !(c is DrawIndexed)
                &&& renderable.index_buffer is None ==> !(c is BindIndexBuffer)
            },
        match renderable.index_buffer {
            Some(ib) => renderable_commands(renderable, pipelines).last() == (Command::DrawIndexed {
                index_count: ib@.indice_count,
                instance_count: 1,
                first_index: 0,
                vertex_offset: 0,
                first_instance: 0,
            }),
            None => renderable_commands(renderable, pipelines).last() == (Command::Draw {
                vertex_count: live_vertex_count(renderable.vertex_buffers@),
                instance_count: 1,
                first_vertex: 0,
                first_instance: 0,
            }),
        },
        count_draws(renderable_commands(renderable, pipelines), true) == (if renderable.index_buffer is Some {
            1nat
        } else {
            0nat
        }),
        count_draws(renderable_commands(renderable, pipelines), false) == (if renderable.index_buffer is Some {
            0nat
        } else {
            1nat
        }),
{
    let all = renderable_commands(renderable, pipelines);
    let before = seq![Command::BindPipeline { pipeline: pipelines.lookup(renderable.pipeline_selector).pipeline }]
        + index_commands(renderable.index_buffer) + bind_commands(renderable.vertex_buffers@);
    let draw = draw_of(renderable.vertex_buffers@, index_view(renderable.index_buffer));
    assert(all =~= before + seq![draw]);
    assert(all.last() == draw);
    let skip = 1 + index_commands(renderable.index_buffer).len();
    assert forall|k: int| 0 <= k < before.len() implies {
        let c = #[trigger] before[k];
        &&& !(c is Draw)
        &&& !(c is DrawIndexed)
        &&& renderable.index_buffer is None ==> !(c is BindIndexBuffer)
    } by {
        if k >= skip {
            assert(before[k] == bind_commands(renderable.vertex_buffers@)[k - skip]);
        }
    }
    assert forall|k: int| 0 <= k < all.len() - 1 implies {
        let c = #[trigger] all[k];
        &&& !(c is Draw)
        &&& !(c is DrawIndexed)
        &&& renderable.index_buffer is None ==> !(c is BindIndexBuffer)
    } by {
        assert(all[k] == before[k]);
    }
    assert((before + seq![draw]).drop_last() =~= before);
    lemma_count_draws_none(before, true);
    lemma_count_draws_none(before, false);
}

/// A scene is drawn with exactly one draw for each renderable: an
/// indexed draw for each renderable that has an index buffer, a plain
/// draw for each that has none.
pub proof fn lemma_scene_draws(renderables: Seq<Renderable>, pipelines: PipelineSet)
    ensures
        count_draws(scene_commands(renderables, pipelines), true) == indexed_renderables(renderables),
        count_draws(scene_commands(renderables, pipelines), false) + indexed_renderables(renderables)
            == renderables.len(),
        indexed_renderables(renderables) <= renderables.len(),
    decreases renderables.len(),
{
    if renderables.len() > 0 {
        lemma_scene_draws(renderables.drop_last(), pipelines);
        lemma_renderable_draws(renderables.last(), pipelines);
        let before = scene_commands(renderables.drop_last(), pipelines);
        let last = renderable_commands(renderables.last(), pipelines);
        lemma_count_draws_joined(before, last, true);
        lemma_count_draws_joined(before, last, false);
    }
}

/// The command buffer of a frame holds exactly one draw for each
/// renderable of the scene: an indexed draw for each renderable that has
/// an index buffer, a plain draw for each that has none.
pub proof fn lemma_frame_draws(
    render_pass: u64,
    framebuffer: u64,
    extent: Extent2D,
    renderables: Seq<Renderable>,
    pipelines: PipelineSet,
)
    ensures
        count_draws(frame_commands(render_pass, framebuffer, extent, renderables, pipelines), true)
            == indexed_renderables(renderables),
        count_draws(frame_commands(render_pass, framebuffer, extent, renderables, pipelines), false)
            + indexed_renderables(renderables) == renderables.len(),
{
    let head = seq![
        Command::Begin,
        Command::BeginRenderPass { render_pass, framebuffer, extent, clear: background() },
    ];
    let scene = scene_commands(renderables, pipelines);
    let tail = seq![Command::EndRenderPass, Command::End];
    lemma_scene_draws(renderables, pipelines);
    lemma_count_draws_none(head, true);
    lemma_count_draws_none(head, false);
    lemma_count_draws_none(tail, true);
    lemma_count_draws_none(tail, false);
    lemma_count_draws_joined(head, scene, true);
    lemma_count_draws_joined(head, scene, false);
    lemma_count_draws_joined(head + scene, tail, true);
    lemma_count_draws_joined(head + scene, tail, false);
}

/// Appends the commands of one renderable to `commands`.
pub fn record_renderable(commands: &mut Vec<Command>, renderable: &Renderable, pipelines: &PipelineSet)
    requires
        recordable(*renderable),
    ensures
        final(commands)@ == old(commands)@ + renderable_commands(*renderable, *pipelines),
{
    let ghost start = commands@;
    let pipeline = pipelines.get(renderable.pipeline_selector);
    commands.push(Command::BindPipeline { pipeline: pipeline.pipeline });
    let index_count: Option<u32> = match &renderable.index_buffer {
        Some(ib) => {
            commands.push(Command::BindIndexBuffer { buffer: ib.get_buffer(), offset: 0 });
            Some(ib.get_indice_count())
        },
        None => None,
    };
    let ghost head = commands@;
    let mut i: usize = 0;
    while i < renderable.vertex_buffers.len()
        invariant
            0 <= i <= renderable.vertex_buffers.len(),
            renderable.vertex_buffers@.len() <= u32::MAX,
            commands@ == head + bind_commands(renderable.vertex_buffers@.take(i as int)),
        decreases renderable.vertex_buffers.len() - i,
    {
        let vb = &renderable.vertex_buffers[i];
        commands.push(Command::BindVertexBuffer { binding: i as u32, buffer: vb.get_buffer(), offset: 0 });
        proof {
            assert(commands@ =~= head + bind_commands(renderable.vertex_buffers@.take(i + 1)));
        }
        i += 1;
    }
    proof {
        assert(renderable.vertex_buffers@.take(i as int) =~= renderable.vertex_buffers@);
    }
    let draw = match index_count {
        Some(count) => Command::DrawIndexed {
            index_count: count,
            instance_count: 1,
            first_index: 0,
            vertex_offset: 0,
            first_instance: 0,
        },
        None => {
            let vertex_count: u32 = if renderable.vertex_buffers.len() > 0 {
                renderable.vertex_buffers[0].get_vert_count()
            } else {
                0
            };
            Command::Draw { vertex_count, instance_count: 1, first_vertex: 0, first_instance: 0 }
        },
    };
    commands.push(draw);
    proof {
        assert(commands@ =~= start + renderable_commands(*renderable, *pipelines));
    }
}

/// Records a frame: the render pass is begun on `framebuffer`, every
/// renderable is recorded in submission order with one draw each, and
/// the pass and the command buffer are ended.
pub fn record_frame(
    render_pass: u64,
    framebuffer: u64,
    extent: Extent2D,
    renderables: &[Renderable],
    pipelines: &PipelineSet,
) -> (r: Vec<Command>)
    requires
        scene_recordable(renderables@),
    ensures
        r@ == frame_commands(render_pass, framebuffer, extent, renderables@, *pipelines),
        count_draws(r@, true) == indexed_renderables(renderables@),
        count_draws(r@, false) + indexed_renderables(renderables@) == renderables@.len(),
{
    proof {
        lemma_frame_draws(render_pass, framebuffer, extent, renderables@, *pipelines);
    }
    let mut commands: Vec<Command> = Vec::new();
    commands.push(Command::Begin);
    commands.push(
        Command::BeginRenderPass {
            render_pass,
            framebuffer,
            extent,
            clear: ClearColor { r: 0, g: 0, b: CLEAR_BLUE, a: CLEAR_ALPHA },
        },
    );
    let ghost head = commands@;
    let mut i: usize = 0;
    while i < renderables.len()
        invariant
            0 <= i <= renderables.len(),
            scene_recordable(renderables@),
            commands@ == head + scene_commands(renderables@.take(i as int), *pipelines),
        decreases renderables.len() - i,
    {
        record_renderable(&mut commands, &renderables[i], pipelines);
        proof {
            let taken = renderables@.take(i + 1);
            assert(taken.drop_last() =~= renderables@.take(i as int));
            assert(taken.last() == renderables@[i as int]);
            assert(commands@ =~= head + scene_commands(taken, *pipelines));
        }
        i += 1;
    }
    commands.push(Command::EndRenderPass);
    commands.push(Command::End);
    proof {
        assert(renderables@.take(i as int) =~= renderables@);
        assert(commands@ =~= frame_commands(render_pass, framebuffer, extent, renderables@, *pipelines));
    }
    commands
}

} // verus!
