//! The renderer as a whole: the frame driver, the objects built for the
//! chain, device memory, and the scene.

use crate::allocator::Allocator;
use crate::command::{count_draws, frame_commands, indexed_renderables, record_frame, scene_recordable, Command};
use crate::command_pool::Pools;
use crate::device::Destroy;
use crate::frame::{FrameAction, FrameDriver, FrameError, FrameEvent, FramePhase, FrameState};
use crate::pipeline::PipelineSet;
use crate::queue::{QueueFamilies, Queues};
use crate::renderable::Renderable;
use crate::swapchain::VulkanSwapchain;
use crate::texture::Texture;
use vstd::prelude::*;

verus! {

/// A stage of the rebuild that follows a stale chain.
#[derive(Clone, Copy, Debug, PartialEq, Eq, Structural)]
pub enum RebuildStage {
    SurfaceCapabilities,
    Swapchain,
    RenderPass,
    Framebuffers,
    Pipelines,
    CommandPools,
    CommandBuffers,
    Recording,
}

/// One step of a teardown or a rebuild.
#[derive(Clone, Copy, Debug, PartialEq, Eq, Structural)]
pub enum DeviceStep {
    /// Wait until the device is idle.
    WaitIdle,
    /// Free the frame command buffers, which were allocated from `pool`.
    FreeCommandBuffers { pool: u64 },
    Destroy(Destroy),
    Rebuild(RebuildStage),
    /// Release the device memory the allocator holds.
    ReleaseAllocator,
    DestroyDevice,
    DestroySurface,
    DestroyDebugMessenger,
    DestroyInstance,
}

/// The command buffers to allocate.
#[derive(Clone, Copy, Debug, PartialEq, Eq, Structural)]
pub struct CommandBufferRequest {
    pub pool: u64,
    pub count: u32,
}

/// The renderer.
#[derive(Debug)]
pub struct VulkanApp {
    pub queue_families: QueueFamilies,
    pub frame: FrameDriver,
    pub renderpass: u64,
    pub pipelines: PipelineSet,
    pub pools: Pools,
    pub allocator: Allocator,
    pub renderables: Vec<Renderable>,
    pub textures: Vec<Texture>,
}

/// Each object of `destroys` as a step.
pub open spec fn as_steps(destroys: Seq<Destroy>) -> Seq<DeviceStep> {
    Seq::new(destroys.len(), |i: int| DeviceStep::Destroy(destroys[i]))
}

/// The buffers of the renderables, in submission order.
pub open spec fn renderables_teardown(renderables: Seq<Renderable>) -> Seq<Destroy>
    decreases renderables.len(),
{
    if renderables.len() == 0 {
        Seq::<Destroy>::empty()
    } else {
        renderables_teardown(renderables.drop_last()) + renderables.last().teardown()
    }
}

/// The objects of one texture: the view, the image, the sampler.
pub open spec fn texture_teardown(texture: Texture) -> Seq<Destroy> {
    seq![
        Destroy::ImageView(texture.imageview),
        Destroy::Image(texture.vk_image),
        Destroy::Sampler(texture.sampler),
    ]
}

/// The objects of the textures, in order.
pub open spec fn textures_teardown(textures: Seq<Texture>) -> Seq<Destroy>
    decreases textures.len(),
{
    if textures.len() == 0 {
        Seq::<Destroy>::empty()
    } else {
        textures_teardown(textures.drop_last()) + texture_teardown(textures.last())
    }
}

/// The stages of a rebuild, in order: each is built on the ones before.
pub open spec fn rebuild_stages() -> Seq<DeviceStep> {
    seq![
        DeviceStep::Rebuild(RebuildStage::SurfaceCapabilities),
        DeviceStep::Rebuild(RebuildStage::Swapchain),
        DeviceStep::Rebuild(RebuildStage::RenderPass),
        DeviceStep::Rebuild(RebuildStage::Framebuffers),
        DeviceStep::Rebuild(RebuildStage::Pipelines),
        DeviceStep::Rebuild(RebuildStage::CommandPools),
        DeviceStep::Rebuild(RebuildStage::CommandBuffers),
        DeviceStep::Rebuild(RebuildStage::Recording),
    ]
}

/// What is torn down with the chain, dependents first: the command
/// buffers, the pools, the pipelines, the render pass, the chain.
pub open spec fn chain_teardown(
    pools: Pools,
    pipelines: PipelineSet,
    renderpass: u64,
    frame: FrameState,
) -> Seq<DeviceStep> {
    seq![DeviceStep::FreeCommandBuffers { pool: pools.graphics_command_pool }] + as_steps(
        seq![
            Destroy::CommandPool(pools.graphics_command_pool),
            Destroy::CommandPool(pools.transfer_command_pool),
        ],
    ) + as_steps(pipelines.untextured.teardown() + pipelines.textured.teardown()) + seq![
        DeviceStep::Destroy(Destroy::RenderPass(renderpass)),
    ] + as_steps(frame.chain.teardown())
}

/// What is destroyed last, in order: device memory, the device, the
/// surface, the debug messenger, the instance.
pub open spec fn device_teardown() -> Seq<DeviceStep> {
    seq![
        DeviceStep::ReleaseAllocator,
        DeviceStep::DestroyDevice,
        DeviceStep::DestroySurface,
        DeviceStep::DestroyDebugMessenger,
        DeviceStep::DestroyInstance,
    ]
}

fn push_steps(steps: &mut Vec<DeviceStep>, destroys: &Vec<Destroy>)
    ensures
        final(steps)@ == old(steps)@ + as_steps(destroys@),
{
    let ghost start = steps@;
    let mut i: usize = 0;
    while i < destroys.len()
        invariant
            0 <= i <= destroys.len(),
            steps@ == start + as_steps(destroys@.take(i as int)),
        decreases destroys.len() - i,
    {
        steps.push(DeviceStep::Destroy(destroys[i]));
        proof {
            assert(steps@ =~= start + as_steps(destroys@.take(i + 1)));
        }
        i += 1;
    }
    proof {
        assert(destroys@.take(i as int) =~= destroys@);
    }
}

impl VulkanApp {
    /// The steps that tear down what was built for the chain.
    pub open spec fn chain_steps(self) -> Seq<DeviceStep> {
        chain_teardown(self.pools, self.pipelines, self.renderpass, self.frame@)
    }

    /// The frame command buffers to allocate: `amount` of them, from the
    /// graphics pool. `None` when `amount` is more than a request can
    /// count.
    pub fn create_commandbuffers(pools: &Pools, amount: usize) -> (r: Option<CommandBufferRequest>)
        ensures
            amount <= u32::MAX ==> r == Some(
                CommandBufferRequest { pool: pools.graphics_command_pool, count: amount as u32 },
            ),
            amount > u32::MAX ==> r is None,
    {
        if amount <= 0xffff_ffff {
            Some(CommandBufferRequest { pool: pools.graphics_command_pool, count: amount as u32 })
        } else {
            None
        }
    }

    /// Assembles the renderer from what was built: it starts at rest,
    /// with an empty scene. It fails when the chain has no framebuffers
    /// or the command buffers are not one per image.
    pub fn init(
        queue_families: QueueFamilies,
        queues: Queues,
        swapchain: VulkanSwapchain,
        renderpass: u64,
        pipelines: PipelineSet,
        pools: Pools,
        commandbuffers: Vec<u64>,
        allocator: Allocator,
    ) -> (r: Result<VulkanApp, FrameError>)
        ensures
            swapchain@.framebuffers.len() == swapchain@.images.len() && commandbuffers@.len()
                == swapchain@.images.len() ==> (r matches Ok(app) && {
                &&& app.frame@ == (FrameState {
                    chain: swapchain@,
                    commandbuffers: commandbuffers@,
                    queues,
                    resized: false,
                    phase: FramePhase::Ready,
                })
                &&& app.queue_families == queue_families
                &&& app.renderpass == renderpass
                &&& app.pipelines == pipelines
                &&& app.pools == pools
                &&& app.allocator == allocator
                &&& app.renderables@.len() == 0
                &&& app.textures@.len() == 0
            }),
            !(swapchain@.framebuffers.len() == swapchain@.images.len() && commandbuffers@.len()
                == swapchain@.images.len()) ==> (r matches Err(e) && e == FrameError::ChainIncomplete),
    {
        match FrameDriver::new(swapchain, commandbuffers, queues) {
            Ok(frame) => Ok(
                VulkanApp {
                    queue_families,
                    frame,
                    renderpass,
                    pipelines,
                    pools,
                    allocator,
                    renderables: Vec::new(),
                    textures: Vec::new(),
                },
            ),
            Err(e) => Err(e),
        }
    }

    /// Moves the frame on by one event and answers with what to ask of
    /// the driver next. Nothing but the frame driver changes.
    pub fn draw_frame(&mut self, event: FrameEvent) -> (r: FrameAction)
        ensures
            (final(self).frame@, r) == old(self).frame@.step(event),
            final(self).frame@.wf(),
            final(self).queue_families == old(self).queue_families,
            final(self).renderpass == old(self).renderpass,
            final(self).pipelines == old(self).pipelines,
            final(self).pools == old(self).pools,
            final(self).allocator == old(self).allocator,
            final(self).renderables == old(self).renderables,
            final(self).textures == old(self).textures,
    {
        self.frame.step(event)
    }

    /// Records the frame for one image of the chain: the scene as it is
    /// now, drawn into that image's framebuffer, with exactly one draw
    /// for each renderable. `None` for an image the chain does not have.
    pub fn fill_commandbuffers(&self, image_index: u32) -> (r: Option<Vec<Command>>)
        requires
            scene_recordable(self.renderables@),
        ensures
            image_index >= self.frame@.chain.images.len() ==> r is None,
            image_index < self.frame@.chain.images.len() ==> (r matches Some(commands) && {
                &&& commands@ == frame_commands(
                    self.renderpass,
                    self.frame@.chain.framebuffers[image_index as int],
                    self.frame@.chain.extent,
                    self.renderables@,
                    self.pipelines,
                )
                &&& count_draws(commands@, true) == indexed_renderables(self.renderables@)
                &&& count_draws(commands@, false) + indexed_renderables(self.renderables@)
                    == self.renderables@.len()
            }),
    {
        let chain = self.frame.swapchain();
        let index: usize = image_index as usize;
        if index >= chain.amount_of_images() {
            return None;
        }
        let framebuffers = chain.framebuffers();
        Some(
            record_frame(
                self.renderpass,
                framebuffers[index],
                chain.extent(),
                self.renderables.as_slice(),
                &self.pipelines,
            ),
        )
    }

    /// The steps of a chain recreation, in order: wait for the device to
    /// be idle; tear down what was built for the old chain, dependents
    /// first; rebuild everything in the order it depends on.
    pub fn recreate_swapchain(&self) -> (r: Vec<DeviceStep>)
        ensures
            r@ == seq![DeviceStep::WaitIdle] + self.chain_steps() + rebuild_stages(),
    {
        let mut steps: Vec<DeviceStep> = Vec::new();
        steps.push(DeviceStep::WaitIdle);
        self.push_chain_teardown(&mut steps);
        let ghost torn = steps@;
        steps.push(DeviceStep::Rebuild(RebuildStage::SurfaceCapabilities));
        steps.push(DeviceStep::Rebuild(RebuildStage::Swapchain));
        steps.push(DeviceStep::Rebuild(RebuildStage::RenderPass));
        steps.push(DeviceStep::Rebuild(RebuildStage::Framebuffers));
        steps.push(DeviceStep::Rebuild(RebuildStage::Pipelines));
        steps.push(DeviceStep::Rebuild(RebuildStage::CommandPools));
        steps.push(DeviceStep::Rebuild(RebuildStage::CommandBuffers));
        steps.push(DeviceStep::Rebuild(RebuildStage::Recording));
        proof {
            assert(steps@ =~= torn + rebuild_stages());
        }
        steps
    }

    fn push_chain_teardown(&self, steps: &mut Vec<DeviceStep>)
        ensures
            final(steps)@ == old(steps)@ + self.chain_steps(),
    {
        let ghost start = steps@;
        steps.push(DeviceStep::FreeCommandBuffers { pool: self.pools.graphics_command_pool });
        let pools = self.pools.cleanup();
        push_steps(steps, &pools);
        let pipelines = self.pipelines.cleanup();
        push_steps(steps, &pipelines);
        steps.push(DeviceStep::Destroy(Destroy::RenderPass(self.renderpass)));
        let chain = self.frame.swapchain().cleanup();
        push_steps(steps, &chain);
        proof {
            assert(steps@ =~= start + self.chain_steps());
        }
    }

    /// Takes the rebuilt chain and what was rebuilt for it, and returns
    /// the frame driver to `Ready`. It fails, and changes nothing, when
    /// no recreation is under way, or else when the chain has no
    /// framebuffers or the command buffers are not one per image.
    pub fn finish_recreate(
        &mut self,
        swapchain: VulkanSwapchain,
        renderpass: u64,
        pipelines: PipelineSet,
        pools: Pools,
        commandbuffers: Vec<u64>,
    ) -> (r: Result<(), FrameError>)
        ensures
            final(self).frame@.wf(),
            final(self).queue_families == old(self).queue_families,
            final(self).allocator == old(self).allocator,
            final(self).renderables == old(self).renderables,
            final(self).textures == old(self).textures,
            old(self).frame@.phase != FramePhase::Recreating ==> r == Err::<(), FrameError>(
                FrameError::UnexpectedEvent,
            ),
            old(self).frame@.phase == FramePhase::Recreating && !(swapchain@.framebuffers.len()
                == swapchain@.images.len() && commandbuffers@.len() == swapchain@.images.len()) ==> r == Err::<
                (),
                FrameError,
            >(FrameError::ChainIncomplete),
            r is Err ==> {
                &&& final(self).frame@ == old(self).frame@
                &&& final(self).renderpass == old(self).renderpass
                &&& final(self).pipelines == old(self).pipelines
                &&& final(self).pools == old(self).pools
            },
            old(self).frame@.phase == FramePhase::Recreating && swapchain@.framebuffers.len()
                == swapchain@.images.len() && commandbuffers@.len() == swapchain@.images.len() ==> {
                &&& r is Ok
                &&& final(self).frame@ == (FrameState {
                    chain: swapchain@,
                    commandbuffers: commandbuffers@,
                    phase: FramePhase::Ready,
                    ..old(self).frame@
                })
                &&& final(self).renderpass == renderpass
                &&& final(self).pipelines == pipelines
                &&& final(self).pools == pools
            },
    {
        match self.frame.install(swapchain, commandbuffers) {
            Ok(()) => {
                self.renderpass = renderpass;
                self.pipelines = pipelines;
                self.pools = pools;
                Ok(())
            },
            Err(e) => Err(e),
        }
    }

    /// Tears the renderer down and lists what to do on the device, in
    /// order: wait for the device to be idle; destroy the buffers of the
    /// scene and the textures; tear down what was built for the chain;
    /// release device memory, the device, the surface, the debug
    /// messenger and the instance.
    pub fn destroy(self) -> (r: Vec<DeviceStep>)
        ensures
            r@ == seq![DeviceStep::WaitIdle] + as_steps(renderables_teardown(self.renderables@)) + as_steps(
                textures_teardown(self.textures@),
            ) + self.chain_steps() + device_teardown(),
    {
        let ghost whole = self;
        let mut steps: Vec<DeviceStep> = Vec::new();
        steps.push(DeviceStep::WaitIdle);
        let ghost head = steps@;
        let mut app = self;
        let ghost mut i: int = 0;
        while app.renderables.len() > 0
            invariant
                0 <= i <= whole.renderables@.len(),
                app.renderables@ == whole.renderables@.skip(i),
                app.textures == whole.textures,
                app.pools == whole.pools,
                app.pipelines == whole.pipelines,
                app.renderpass == whole.renderpass,
                app.frame == whole.frame,
                steps@ == head + as_steps(renderables_teardown(whole.renderables@.take(i))),
            decreases app.renderables.len(),
        {
            let renderable = app.renderables.remove(0);
            let (destroys, live) = renderable.destroy(&mut app.allocator);
            push_steps(&mut steps, &destroys);
            proof {
                let taken = whole.renderables@.take(i + 1);
                assert(renderable == whole.renderables@[i]);
                assert(taken.drop_last() =~= whole.renderables@.take(i));
                assert(taken.last() == whole.renderables@[i]);
                assert(app.renderables@ =~= whole.renderables@.skip(i + 1));
                assert(steps@ =~= head + as_steps(renderables_teardown(taken)));
                i = i + 1;
            }
        }
        proof {
            assert(whole.renderables@.take(i) =~= whole.renderables@);
        }
        let ghost scene = steps@;
        let ghost mut k: int = 0;
        while app.textures.len() > 0
            invariant
                0 <= k <= whole.textures@.len(),
                app.textures@ == whole.textures@.skip(k),
                app.pools == whole.pools,
                app.pipelines == whole.pipelines,
                app.renderpass == whole.renderpass,
                app.frame == whole.frame,
                steps@ == scene + as_steps(textures_teardown(whole.textures@.take(k))),
            decreases app.textures.len(),
        {
            let texture = app.textures.remove(0);
            let (destroys, released) = texture.destroy(&mut app.allocator);
            push_steps(&mut steps, &destroys);
            proof {
                let taken = whole.textures@.take(k + 1);
                assert(texture == whole.textures@[k]);
                assert(taken.drop_last() =~= whole.textures@.take(k));
                assert(taken.last() == whole.textures@[k]);
                assert(app.textures@ =~= whole.textures@.skip(k + 1));
                assert(steps@ =~= scene + as_steps(textures_teardown(taken)));
                k = k + 1;
            }
        }
        proof {
            assert(whole.textures@.take(k) =~= whole.textures@);
        }
        app.push_chain_teardown(&mut steps);
        let ghost torn = steps@;
        steps.push(DeviceStep::ReleaseAllocator);
        steps.push(DeviceStep::DestroyDevice);
        steps.push(DeviceStep::DestroySurface);
        steps.push(DeviceStep::DestroyDebugMessenger);
        steps.push(DeviceStep::DestroyInstance);
        proof {
            assert(steps@ =~= torn + device_teardown());
            assert(app.chain_steps() == whole.chain_steps());
        }
        steps
    }
}

} // verus!
