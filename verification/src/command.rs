//! The command-buffer / pass recording state machine.
//!
//! A command buffer moves from *idle* through at most one open pass at a
//! time and ends by submission or cancellation, both of which settle the
//! in-flight accounting on the [`crate::device::Device`] that issued it.
//! Opening a pass takes two steps:
//! the begin call reserves the single pass slot and hands the caller the
//! resolved operands for the native begin call, and the `*_pass_begun`
//! call turns the native result into the pass value — or releases the
//! slot again if the native call failed.  The reservation happens before
//! any native call, so a second open pass is refused before the native
//! layer is ever reached.

use vstd::prelude::*;

use crate::device::{
    ColorTargetInfo, ComputePipeline, DepthStencilTargetInfo, Device, GPUBuffer, GPUBufferBinding,
    GraphicsPipeline, RawBlitInfo, RawBufferBinding, RawColorTargetInfo,
    RawDepthStencilTargetInfo, RawStorageBufferBinding, RawStorageTextureBinding,
    RawTextureSamplerBinding, StorageBufferReadWriteBinding, StorageTextureReadWriteBinding,
    Texture, TextureSamplerBinding, BlitInfo,
};
use crate::error::{GpuError, NativeCall};

verus! {

/// Where a command buffer stands with its single pass slot.
#[derive(Clone, Copy, Debug, PartialEq, Eq, Structural)]
pub enum PassState {
    /// No pass is open and none is being opened.
    Idle,
    /// A begin call has reserved the slot; the native begin call's result
    /// has not been handed back yet.
    Reserved,
    /// A pass is open.
    Open,
}

/// A recording session on the native device.
///
/// The value is consumed by [`CommandBuffer::submit`] or
/// [`CommandBuffer::cancel`]; dropping it without either leaks the
/// in-flight count, so a caller that may leave early should wrap it in a
/// guard that cancels.
pub struct CommandBuffer {
    pub(crate) raw_token: u64,
    pub(crate) pass: PassState,
    pub(crate) swapchain_held: bool,
}

impl CommandBuffer {
    /// The native token of this command buffer.
    pub closed spec fn spec_raw(&self) -> u64 {
        self.raw_token
    }

    /// Where the single pass slot stands.
    pub closed spec fn pass_state(&self) -> PassState {
        self.pass
    }

    /// Whether the swapchain texture was already acquired through this
    /// command buffer.
    pub closed spec fn swapchain_taken(&self) -> bool {
        self.swapchain_held
    }

    /// The pass slot is free to take: no pass is open and none is being
    /// opened on this command buffer.  Every begin call demands it.
    pub open spec fn can_begin_pass(&self) -> bool {
        self.pass_state() is Idle
    }

    /// A freshly acquired command buffer: idle, swapchain not yet taken.
    pub(crate) fn new_acquired(raw: u64) -> (cb: CommandBuffer)
        ensures
            cb.spec_raw() == raw,
            cb.pass_state() is Idle,
            !cb.swapchain_taken(),
    {
        CommandBuffer { raw_token: raw, pass: PassState::Idle, swapchain_held: false }
    }

    /// Record that the swapchain texture was acquired through this buffer.
    pub(crate) fn mark_swapchain_taken(&mut self)
        ensures
            final(self).spec_raw() == old(self).spec_raw(),
            final(self).pass_state() == old(self).pass_state(),
            final(self).swapchain_taken(),
    {
        self.swapchain_held = true;
    }

    /// The native token of this command buffer.
    pub fn raw(&self) -> (r: u64)
        ensures
            r == self.spec_raw(),
    {
        self.raw_token
    }

    /// Whether the swapchain texture was already acquired through this
    /// command buffer; while this holds, it may not be acquired again.
    pub fn took_swapchain(&self) -> (r: bool)
        ensures
            r == self.swapchain_taken(),
    {
        self.swapchain_held
    }

    /// Whether a pass is open or being opened; while this holds, no
    /// further pass may be begun.
    pub fn has_open_pass(&self) -> (r: bool)
        ensures
            r == !(self.pass_state() is Idle),
    {
        match self.pass {
            PassState::Idle => false,
            PassState::Reserved => true,
            PassState::Open => true,
        }
    }

    /// Reserve the pass slot for a copy pass.  The caller then makes the
    /// native begin call and hands its result to
    /// [`CommandBuffer::copy_pass_begun`].
    ///
    /// At most one pass may be open at a time: the reservation demands an
    /// idle slot, before any native call is made.
    pub fn begin_copy_pass(&mut self)
        requires
            old(self).can_begin_pass(),
        ensures
            final(self).pass_state() is Reserved,
            final(self).spec_raw() == old(self).spec_raw(),
            final(self).swapchain_taken() == old(self).swapchain_taken(),
    {
        self.pass = PassState::Reserved;
    }

    /// Turn the native begin-copy-pass result into the pass value, or
    /// release the reservation if the native call failed (`raw == 0`).
    pub fn copy_pass_begun(&mut self, raw: u64) -> (r: Result<CopyPass, GpuError>)
        requires
            old(self).pass_state() is Reserved,
        ensures
            final(self).spec_raw() == old(self).spec_raw(),
            final(self).swapchain_taken() == old(self).swapchain_taken(),
            raw == 0 ==> r == Err::<CopyPass, GpuError>(
                GpuError::NativeCallFailed(NativeCall::BeginCopyPass),
            ) && final(self).pass_state() is Idle,
            raw != 0 ==> (r matches Ok(p) && p.spec_raw() == raw && p.spec_cmd() == old(self).spec_raw() && final(self).pass_state() is Open),
    {
        if raw == 0 {
            self.pass = PassState::Idle;
            return Err(GpuError::NativeCallFailed(NativeCall::BeginCopyPass));
        }
        self.pass = PassState::Open;
        Ok(CopyPass { raw_token: raw, cmd: self.raw_token })
    }

    /// Close `pass`, releasing the pass slot, and return the native token
    /// on which the caller must issue the native end call.
    pub fn end_copy_pass(&mut self, pass: CopyPass) -> (token: u64)
        requires
            old(self).pass_state() is Open,
            pass.spec_cmd() == old(self).spec_raw(),
        ensures
            final(self).pass_state() is Idle,
            final(self).spec_raw() == old(self).spec_raw(),
            final(self).swapchain_taken() == old(self).swapchain_taken(),
            token == pass.spec_raw(),
    {
        self.pass = PassState::Idle;
        pass.raw_token
    }

    /// Reserve the pass slot for a render pass and resolve the targets'
    /// handles for the native begin call, whose result goes to
    /// [`CommandBuffer::render_pass_begun`].
    ///
    /// At most one pass may be open at a time: the reservation demands an
    /// idle slot, before any native call is made.
    ///
    /// # Panics
    /// Panics if any target's texture handle does not resolve.
    pub fn begin_render_pass(
        &mut self,
        device: &Device,
        color_targets: &Vec<ColorTargetInfo>,
        depth_stencil_target: Option<&DepthStencilTargetInfo>,
    ) -> (r: RenderPassSetup)
        requires
            old(self).can_begin_pass(),
            device.wf(),
            forall|i: int|
                0 <= i < color_targets@.len() ==> (#[trigger] color_targets@[i]).resolvable(device),
            depth_stencil_target matches Some(ds) ==> device.texture_resolvable(ds.texture),
        ensures
            final(self).pass_state() is Reserved,
            final(self).spec_raw() == old(self).spec_raw(),
            final(self).swapchain_taken() == old(self).swapchain_taken(),
            r.color_targets@.len() == color_targets@.len(),
            forall|i: int|
                0 <= i < color_targets@.len() ==> r.color_targets@[i] == (
                #[trigger] color_targets@[i]).spec_to_raw(device),
            depth_stencil_target matches Some(ds) ==> r.depth_stencil == Some(
                ds.spec_to_raw(device),
            ),
            depth_stencil_target is None ==> r.depth_stencil is None,
    {
        self.pass = PassState::Reserved;
        let mut raw_targets: Vec<RawColorTargetInfo> = Vec::new();
        let n = color_targets.len();
        let mut j: usize = 0;
        while j < n
            invariant
                n == color_targets@.len(),
                j <= n,
                device.wf(),
                forall|i: int|
                    0 <= i < color_targets@.len() ==> (#[trigger] color_targets@[i]).resolvable(
                        device,
                    ),
                raw_targets@.len() == j,
                forall|i: int|
                    0 <= i < j ==> raw_targets@[i] == (#[trigger] color_targets@[i]).spec_to_raw(
                        device,
                    ),
            decreases n - j,
        {
            raw_targets.push(color_targets[j].to_raw(device));
            j += 1;
        }
        let raw_ds = match depth_stencil_target {
            Some(ds) => Some(ds.to_raw(device)),
            None => None,
        };
        RenderPassSetup { color_targets: raw_targets, depth_stencil: raw_ds }
    }

    /// Turn the native begin-render-pass result into the pass value, or
    /// release the reservation if the native call failed (`raw == 0`).
    pub fn render_pass_begun(&mut self, raw: u64) -> (r: Result<RenderPass, GpuError>)
        requires
            old(self).pass_state() is Reserved,
        ensures
            final(self).spec_raw() == old(self).spec_raw(),
            final(self).swapchain_taken() == old(self).swapchain_taken(),
            raw == 0 ==> r == Err::<RenderPass, GpuError>(
                GpuError::NativeCallFailed(NativeCall::BeginRenderPass),
            ) && final(self).pass_state() is Idle,
            raw != 0 ==> (r matches Ok(p) && p.spec_raw() == raw && p.spec_cmd() == old(self).spec_raw() && final(self).pass_state() is Open),
    {
        if raw == 0 {
            self.pass = PassState::Idle;
            return Err(GpuError::NativeCallFailed(NativeCall::BeginRenderPass));
        }
        self.pass = PassState::Open;
        Ok(RenderPass { raw_token: raw, cmd: self.raw_token })
    }

    /// Close `pass`, releasing the pass slot, and return the native token
    /// on which the caller must issue the native end call.
    pub fn end_render_pass(&mut self, pass: RenderPass) -> (token: u64)
        requires
            old(self).pass_state() is Open,
            pass.spec_cmd() == old(self).spec_raw(),
        ensures
            final(self).pass_state() is Idle,
            final(self).spec_raw() == old(self).spec_raw(),
            final(self).swapchain_taken() == old(self).swapchain_taken(),
            token == pass.spec_raw(),
    {
        self.pass = PassState::Idle;
        pass.raw_token
    }

    /// Reserve the pass slot for a compute pass and resolve the storage
    /// bindings' handles for the native begin call, whose result goes to
    /// [`CommandBuffer::compute_pass_begun`].
    ///
    /// At most one pass may be open at a time: the reservation demands an
    /// idle slot, before any native call is made.
    ///
    /// # Panics
    /// Panics if any bound handle does not resolve.
    pub fn begin_compute_pass(
        &mut self,
        device: &Device,
        storage_texture_bindings: &Vec<StorageTextureReadWriteBinding>,
        storage_buffer_bindings: &Vec<StorageBufferReadWriteBinding>,
    ) -> (r: ComputePassSetup)
        requires
            old(self).can_begin_pass(),
            device.wf(),
            forall|i: int|
                0 <= i < storage_texture_bindings@.len() ==> device.texture_resolvable(
                    (#[trigger] storage_texture_bindings@[i]).texture,
                ),
            forall|i: int|
                0 <= i < storage_buffer_bindings@.len() ==> device.buffers.live(
                    (#[trigger] storage_buffer_bindings@[i]).buffer.0 as int,
                ),
        ensures
            final(self).pass_state() is Reserved,
            final(self).spec_raw() == old(self).spec_raw(),
            final(self).swapchain_taken() == old(self).swapchain_taken(),
            r.storage_textures@.len() == storage_texture_bindings@.len(),
            forall|i: int|
                0 <= i < storage_texture_bindings@.len() ==> r.storage_textures@[i] == ({
                    let b = #[trigger] storage_texture_bindings@[i];
                    RawStorageTextureBinding {
                        texture: device.spec_texture_raw(b.texture),
                        mip_level: b.mip_level,
                        layer: b.layer,
                        cycle: b.cycle,
                    }
                }),
            r.storage_buffers@.len() == storage_buffer_bindings@.len(),
            forall|i: int|
                0 <= i < storage_buffer_bindings@.len() ==> r.storage_buffers@[i] == ({
                    let b = #[trigger] storage_buffer_bindings@[i];
                    RawStorageBufferBinding {
                        buffer: device.buffers@[b.buffer.0 as int].unwrap().raw,
                        cycle: b.cycle,
                    }
                }),
    {
        self.pass = PassState::Reserved;
        let mut raw_textures: Vec<RawStorageTextureBinding> = Vec::new();
        let nt = storage_texture_bindings.len();
        let mut j: usize = 0;
        while j < nt
            invariant
                nt == storage_texture_bindings@.len(),
                j <= nt,
                device.wf(),
                forall|i: int|
                    0 <= i < storage_texture_bindings@.len() ==> device.texture_resolvable(
                        (#[trigger] storage_texture_bindings@[i]).texture,
                    ),
                raw_textures@.len() == j,
                forall|i: int|
                    0 <= i < j ==> raw_textures@[i] == ({
                        let b = #[trigger] storage_texture_bindings@[i];
                        RawStorageTextureBinding {
                            texture: device.spec_texture_raw(b.texture),
                            mip_level: b.mip_level,
                            layer: b.layer,
                            cycle: b.cycle,
                        }
                    }),
            decreases nt - j,
        {
            let b = &storage_texture_bindings[j];
            raw_textures.push(
                RawStorageTextureBinding {
                    texture: device.texture_raw(b.texture),
                    mip_level: b.mip_level,
                    layer: b.layer,
                    cycle: b.cycle,
                },
            );
            j += 1;
        }
        let mut raw_buffers: Vec<RawStorageBufferBinding> = Vec::new();
        let nb = storage_buffer_bindings.len();
        let mut k: usize = 0;
        while k < nb
            invariant
                nb == storage_buffer_bindings@.len(),
                k <= nb,
                device.wf(),
                forall|i: int|
                    0 <= i < storage_buffer_bindings@.len() ==> device.buffers.live(
                        (#[trigger] storage_buffer_bindings@[i]).buffer.0 as int,
                    ),
                raw_buffers@.len() == k,
                forall|i: int|
                    0 <= i < k ==> raw_buffers@[i] == ({
                        let b = #[trigger] storage_buffer_bindings@[i];
                        RawStorageBufferBinding {
                            buffer: device.buffers@[b.buffer.0 as int].unwrap().raw,
                            cycle: b.cycle,
                        }
                    }),
            decreases nb - k,
        {
            let b = &storage_buffer_bindings[k];
            raw_buffers.push(
                RawStorageBufferBinding { buffer: device.buffer_raw(b.buffer), cycle: b.cycle },
            );
            k += 1;
        }
        ComputePassSetup { storage_textures: raw_textures, storage_buffers: raw_buffers }
    }

    /// Turn the native begin-compute-pass result into the pass value, or
    /// release the reservation if the native call failed (`raw == 0`).
    pub fn compute_pass_begun(&mut self, raw: u64) -> (r: Result<ComputePass, GpuError>)
        requires
            old(self).pass_state() is Reserved,
        ensures
            final(self).spec_raw() == old(self).spec_raw(),
            final(self).swapchain_taken() == old(self).swapchain_taken(),
            raw == 0 ==> r == Err::<ComputePass, GpuError>(
                GpuError::NativeCallFailed(NativeCall::BeginComputePass),
            ) && final(self).pass_state() is Idle,
            raw != 0 ==> (r matches Ok(p) && p.spec_raw() == raw && p.spec_cmd() == old(self).spec_raw() && final(self).pass_state() is Open),
    {
        if raw == 0 {
            self.pass = PassState::Idle;
            return Err(GpuError::NativeCallFailed(NativeCall::BeginComputePass));
        }
        self.pass = PassState::Open;
        Ok(ComputePass { raw_token: raw, cmd: self.raw_token })
    }

    /// Close `pass`, releasing the pass slot, and return the native token
    /// on which the caller must issue the native end call.
    pub fn end_compute_pass(&mut self, pass: ComputePass) -> (token: u64)
        requires
            old(self).pass_state() is Open,
            pass.spec_cmd() == old(self).spec_raw(),
        ensures
            final(self).pass_state() is Idle,
            final(self).spec_raw() == old(self).spec_raw(),
            final(self).swapchain_taken() == old(self).swapchain_taken(),
            token == pass.spec_raw(),
    {
        self.pass = PassState::Idle;
        pass.raw_token
    }

    /// Record the result of acquiring the swapchain texture through this
    /// command buffer.
    ///
    /// Valid at most once per command buffer, before any pass is opened.
    /// `ok` is the native call's success flag; `raw`, `width` and `height`
    /// are what it reported.  A `raw` of `0` with `ok` true means no image
    /// was available this tick (e.g. a minimized window): the caller gets
    /// `Ok(None)` and must simply skip rendering.
    pub fn acquire_swapchain_texture(
        &mut self,
        device: &mut Device,
        ok: bool,
        raw: u64,
        width: u32,
        height: u32,
    ) -> (r: Result<Option<Texture>, GpuError>)
        requires
            old(device).wf(),
            old(self).pass_state() is Idle,
            !old(self).swapchain_taken(),
        ensures
            final(device).wf(),
            final(self).spec_raw() == old(self).spec_raw(),
            final(self).pass_state() == old(self).pass_state(),
            !old(device).has_window ==> r == Err::<Option<Texture>, GpuError>(
                GpuError::MissingWindow,
            ) && *final(device) == *old(device) && *final(self) == *old(self),
            old(device).has_window && !ok ==> r == Err::<Option<Texture>, GpuError>(
                GpuError::NativeCallFailed(NativeCall::AcquireSwapchainTexture),
            ) && *final(device) == *old(device) && *final(self) == *old(self),
            old(device).has_window && ok ==> (final(device).swapchain == (
            crate::device::SwapchainState {
                raw,
                width,
                height,
            }) && *final(device) == (Device {
                swapchain: final(device).swapchain,
                ..*old(device)
            }) && final(self).swapchain_taken() && (raw == 0 ==> r == Ok::<
                Option<Texture>,
                GpuError,
            >(None)) && (raw != 0 ==> r == Ok::<Option<Texture>, GpuError>(
                Some(Texture(crate::device::SWAPCHAIN_HANDLE)),
            ))),
    {
        if !device.has_window {
            return Err(GpuError::MissingWindow);
        }
        if !ok {
            return Err(GpuError::NativeCallFailed(NativeCall::AcquireSwapchainTexture));
        }
        device.swapchain = crate::device::SwapchainState { raw, width, height };
        self.swapchain_held = true;
        if raw == 0 {
            Ok(None)
        } else {
            Ok(Some(Texture::swapchain()))
        }
    }

    /// Finish this command buffer by submission.
    ///
    /// The in-flight accounting, the swapchain clear and the reclamation
    /// decision happen whether or not the native submission reported
    /// success (`native_ok`): the native layer consumes the command buffer
    /// either way, so the model treats it as gone and only surfaces the
    /// failure.  The returned list holds the staging buffers to release
    /// now; it is non-empty only when this was the last buffer in flight.
    pub fn submit(self, device: &mut Device, native_ok: bool) -> (r: (
        Result<(), GpuError>,
        Vec<u64>,
    ))
        requires
            old(device).wf(),
            old(device).in_flight > 0,
            self.pass_state() is Idle,
        ensures
            final(device).wf(),
            final(device).in_flight == old(device).in_flight - 1,
            final(device).swapchain == (crate::device::SwapchainState {
                raw: 0,
                width: 0,
                height: 0,
            }),
            old(device).in_flight == 1 ==> r.1@ == old(device).pending_staging@ && final(device).pending_staging@.len() == 0,
            old(device).in_flight > 1 ==> r.1@.len() == 0 && final(device).pending_staging@ == old(device).pending_staging@,
            native_ok ==> r.0 == Ok::<(), GpuError>(()),
            !native_ok ==> r.0 == Err::<(), GpuError>(
                GpuError::NativeCallFailed(NativeCall::Submit),
            ),
            *final(device) == (Device {
                in_flight: final(device).in_flight,
                swapchain: final(device).swapchain,
                pending_staging: final(device).pending_staging,
                ..*old(device)
            }),
    {
        let _consumed = self;
        let released = device.retire_one();
        if native_ok {
            (Ok(()), released)
        } else {
            (Err(GpuError::NativeCallFailed(NativeCall::Submit)), released)
        }
    }

    /// Finish this command buffer by cancellation (abandoning it without
    /// submitting): the caller issues the native cancel call, and the
    /// model counts the buffer out of flight exactly once and clears the
    /// swapchain slot.  The returned list holds the staging buffers to
    /// release now; it is non-empty only when this was the last buffer in
    /// flight.
    pub fn cancel(self, device: &mut Device) -> (released: Vec<u64>)
        requires
            old(device).wf(),
            old(device).in_flight > 0,
            self.pass_state() is Idle,
        ensures
            final(device).wf(),
            final(device).in_flight == old(device).in_flight - 1,
            final(device).swapchain == (crate::device::SwapchainState {
                raw: 0,
                width: 0,
                height: 0,
            }),
            old(device).in_flight == 1 ==> released@ == old(device).pending_staging@ && final(device).pending_staging@.len() == 0,
            old(device).in_flight > 1 ==> released@.len() == 0 && final(device).pending_staging@
                == old(device).pending_staging@,
            *final(device) == (Device {
                in_flight: final(device).in_flight,
                swapchain: final(device).swapchain,
                pending_staging: final(device).pending_staging,
                ..*old(device)
            }),
    {
        let _consumed = self;
        device.retire_one()
    }

    /// Resolve a blit's handles for the native blit call.  A blit is only
    /// legal while no pass is open on this command buffer.
    ///
    /// # Panics
    /// Panics if either region's texture handle does not resolve.
    pub fn blit_texture(&self, device: &Device, info: &BlitInfo) -> (r: RawBlitInfo)
        requires
            self.pass_state() is Idle,
            device.wf(),
            info.resolvable(device),
        ensures
            r == info.spec_to_raw(device),
    {
        info.to_raw(device)
    }
}

/// The resolved operands of a native begin-render-pass call.
pub struct RenderPassSetup {
    pub color_targets: Vec<RawColorTargetInfo>,
    pub depth_stencil: Option<RawDepthStencilTargetInfo>,
}

/// The resolved operands of a native begin-compute-pass call.
pub struct ComputePassSetup {
    pub storage_textures: Vec<RawStorageTextureBinding>,
    pub storage_buffers: Vec<RawStorageBufferBinding>,
}

/// An open copy pass.
#[derive(Clone, Copy, Debug, PartialEq, Eq, Structural)]
pub struct CopyPass {
    pub(crate) raw_token: u64,
    pub(crate) cmd: u64,
}

impl CopyPass {
    /// The native token of this pass.
    pub closed spec fn spec_raw(&self) -> u64 {
        self.raw_token
    }

    /// The native token of the command buffer this pass was opened on.
    pub closed spec fn spec_cmd(&self) -> u64 {
        self.cmd
    }

    /// The native token of this pass.
    pub fn raw(&self) -> (r: u64)
        ensures
            r == self.spec_raw(),
    {
        self.raw_token
    }
}

/// An open render pass.
#[derive(Clone, Copy, Debug, PartialEq, Eq, Structural)]
pub struct RenderPass {
    pub(crate) raw_token: u64,
    pub(crate) cmd: u64,
}

impl RenderPass {
    /// The native token of this pass.
    pub closed spec fn spec_raw(&self) -> u64 {
        self.raw_token
    }

    /// The native token of the command buffer this pass was opened on.
    pub closed spec fn spec_cmd(&self) -> u64 {
        self.cmd
    }

    /// The native token of this pass.
    pub fn raw(&self) -> (r: u64)
        ensures
            r == self.spec_raw(),
    {
        self.raw_token
    }

    /// Resolve vertex-buffer bindings for the native bind call, keeping
    /// their order.
    ///
    /// # Panics
    /// Panics if any bound buffer handle is stale.
    pub fn bind_vertex_buffers(&self, device: &Device, bindings: &Vec<GPUBufferBinding>) -> (r: Vec<
        RawBufferBinding,
    >)
        requires
            device.wf(),
            forall|i: int|
                0 <= i < bindings@.len() ==> device.buffers.live(
                    (#[trigger] bindings@[i]).buffer.0 as int,
                ),
        ensures
            r@.len() == bindings@.len(),
            forall|i: int|
                0 <= i < bindings@.len() ==> r@[i] == ({
                    let b = #[trigger] bindings@[i];
                    RawBufferBinding {
                        buffer: device.buffers@[b.buffer.0 as int].unwrap().raw,
                        offset: b.offset,
                    }
                }),
    {
        bind_buffer_ranges(device, bindings)
    }

    /// Resolve a graphics-pipeline handle for the native bind call.
    ///
    /// # Panics
    /// Panics if the handle is stale.
    pub fn bind_graphics_pipeline(&self, device: &Device, pipeline: GraphicsPipeline) -> (token:
        u64)
        requires
            device.wf(),
            device.graphics_pipelines.live(pipeline.0 as int),
        ensures
            token == device.graphics_pipelines@[pipeline.0 as int].unwrap().raw,
    {
        device.graphics_pipeline_raw(pipeline)
    }

    /// Resolve texture+sampler pairs for the native bind call, keeping
    /// their order.
    ///
    /// # Panics
    /// Panics if any handle does not resolve.
    pub fn bind_fragment_samplers(&self, device: &Device, bindings: &Vec<TextureSamplerBinding>) -> (
        r: Vec<RawTextureSamplerBinding>)
        requires
            device.wf(),
            forall|i: int|
                0 <= i < bindings@.len() ==> device.texture_resolvable(
                    (#[trigger] bindings@[i]).texture,
                ) && device.samplers.live(bindings@[i].sampler.0 as int),
        ensures
            r@.len() == bindings@.len(),
            forall|i: int|
                0 <= i < bindings@.len() ==> r@[i] == ({
                    let b = #[trigger] bindings@[i];
                    RawTextureSamplerBinding {
                        texture: device.spec_texture_raw(b.texture),
                        sampler: device.samplers@[b.sampler.0 as int].unwrap().raw,
                    }
                }),
    {
        bind_sampler_pairs(device, bindings)
    }

    /// Resolve an index-buffer binding for the native bind call.
    ///
    /// # Panics
    /// Panics if the buffer handle is stale.
    pub fn bind_index_buffer(&self, device: &Device, binding: &GPUBufferBinding) -> (r:
        RawBufferBinding)
        requires
            device.wf(),
            device.buffers.live(binding.buffer.0 as int),
        ensures
            r == (RawBufferBinding {
                buffer: device.buffers@[binding.buffer.0 as int].unwrap().raw,
                offset: binding.offset,
            }),
    {
        RawBufferBinding { buffer: device.buffer_raw(binding.buffer), offset: binding.offset }
    }
}

/// An open compute pass.
#[derive(Clone, Copy, Debug, PartialEq, Eq, Structural)]
pub struct ComputePass {
    pub(crate) raw_token: u64,
    pub(crate) cmd: u64,
}

impl ComputePass {
    /// The native token of this pass.
    pub closed spec fn spec_raw(&self) -> u64 {
        self.raw_token
    }

    /// The native token of the command buffer this pass was opened on.
    pub closed spec fn spec_cmd(&self) -> u64 {
        self.cmd
    }

    /// The native token of this pass.
    pub fn raw(&self) -> (r: u64)
        ensures
            r == self.spec_raw(),
    {
        self.raw_token
    }

    /// Resolve a compute-pipeline handle for the native bind call.
    ///
    /// # Panics
    /// Panics if the handle is stale.
    pub fn bind_compute_pipeline(&self, device: &Device, pipeline: ComputePipeline) -> (token: u64)
        requires
            device.wf(),
            device.compute_pipelines.live(pipeline.0 as int),
        ensures
            token == device.compute_pipelines@[pipeline.0 as int].unwrap().raw,
    {
        device.compute_pipeline_raw(pipeline)
    }

    /// Resolve storage-texture handles for the native bind call, keeping
    /// their order.
    ///
    /// # Panics
    /// Panics if any handle does not resolve.
    pub fn bind_storage_textures(&self, device: &Device, textures: &Vec<Texture>) -> (r: Vec<u64>)
        requires
            device.wf(),
            forall|i: int|
                0 <= i < textures@.len() ==> device.texture_resolvable(#[trigger] textures@[i]),
        ensures
            r@.len() == textures@.len(),
            forall|i: int|
                0 <= i < textures@.len() ==> r@[i] == device.spec_texture_raw(
                    #[trigger] textures@[i],
                ),
    {
        let mut r: Vec<u64> = Vec::new();
        let n = textures.len();
        let mut j: usize = 0;
        while j < n
            invariant
                n == textures@.len(),
                j <= n,
                device.wf(),
                forall|i: int|
                    0 <= i < textures@.len() ==> device.texture_resolvable(#[trigger] textures@[i]),
                r@.len() == j,
                forall|i: int|
                    0 <= i < j ==> r@[i] == device.spec_texture_raw(#[trigger] textures@[i]),
            decreases n - j,
        {
            r.push(device.texture_raw(textures[j]));
            j += 1;
        }
        r
    }

    /// Resolve storage-buffer handles for the native bind call, keeping
    /// their order.
    ///
    /// # Panics
    /// Panics if any handle is stale.
    pub fn bind_storage_buffers(&self, device: &Device, buffers: &Vec<GPUBuffer>) -> (r: Vec<u64>)
        requires
            device.wf(),
            forall|i: int|
                0 <= i < buffers@.len() ==> device.buffers.live(
                    (#[trigger] buffers@[i]).0 as int,
                ),
        ensures
            r@.len() == buffers@.len(),
            forall|i: int|
                0 <= i < buffers@.len() ==> r@[i] == device.buffers@[(
                #[trigger] buffers@[i]).0 as int].unwrap().raw,
    {
        let mut r: Vec<u64> = Vec::new();
        let n = buffers.len();
        let mut j: usize = 0;
        while j < n
            invariant
                n == buffers@.len(),
                j <= n,
                device.wf(),
                forall|i: int|
                    0 <= i < buffers@.len() ==> device.buffers.live(
                        (#[trigger] buffers@[i]).0 as int,
                    ),
                r@.len() == j,
                forall|i: int|
                    0 <= i < j ==> r@[i] == device.buffers@[(
                    #[trigger] buffers@[i]).0 as int].unwrap().raw,
            decreases n - j,
        {
            r.push(device.buffer_raw(buffers[j]));
            j += 1;
        }
        r
    }

    /// Resolve texture+sampler pairs for the native bind call, keeping
    /// their order.
    ///
    /// # Panics
    /// Panics if any handle does not resolve.
    pub fn bind_samplers(&self, device: &Device, bindings: &Vec<TextureSamplerBinding>) -> (r: Vec<
        RawTextureSamplerBinding,
    >)
        requires
            device.wf(),
            forall|i: int|
                0 <= i < bindings@.len() ==> device.texture_resolvable(
                    (#[trigger] bindings@[i]).texture,
                ) && device.samplers.live(bindings@[i].sampler.0 as int),
        ensures
            r@.len() == bindings@.len(),
            forall|i: int|
                0 <= i < bindings@.len() ==> r@[i] == ({
                    let b = #[trigger] bindings@[i];
                    RawTextureSamplerBinding {
                        texture: device.spec_texture_raw(b.texture),
                        sampler: device.samplers@[b.sampler.0 as int].unwrap().raw,
                    }
                }),
    {
        bind_sampler_pairs(device, bindings)
    }

    /// Resolve the argument buffer of an indirect dispatch.
    ///
    /// # Panics
    /// Panics if the buffer handle is stale.
    pub fn dispatch_indirect(&self, device: &Device, buffer: GPUBuffer, offset: u32) -> (r:
        RawBufferBinding)
        requires
            device.wf(),
            device.buffers.live(buffer.0 as int),
        ensures
            r == (RawBufferBinding {
                buffer: device.buffers@[buffer.0 as int].unwrap().raw,
                offset,
            }),
    {
        RawBufferBinding { buffer: device.buffer_raw(buffer), offset }
    }
}

/// Resolve buffer ranges to native tokens, keeping their order.
fn bind_buffer_ranges(device: &Device, bindings: &Vec<GPUBufferBinding>) -> (r: Vec<
    RawBufferBinding,
>)
    requires
        device.wf(),
        forall|i: int|
            0 <= i < bindings@.len() ==> device.buffers.live(
                (#[trigger] bindings@[i]).buffer.0 as int,
            ),
    ensures
        r@.len() == bindings@.len(),
        forall|i: int|
            0 <= i < bindings@.len() ==> r@[i] == ({
                let b = #[trigger] bindings@[i];
                RawBufferBinding {
                    buffer: device.buffers@[b.buffer.0 as int].unwrap().raw,
                    offset: b.offset,
                }
            }),
{
    let mut r: Vec<RawBufferBinding> = Vec::new();
    let n = bindings.len();
    let mut j: usize = 0;
    while j < n
        invariant
            n == bindings@.len(),
            j <= n,
            device.wf(),
            forall|i: int|
                0 <= i < bindings@.len() ==> device.buffers.live(
                    (#[trigger] bindings@[i]).buffer.0 as int,
                ),
            r@.len() == j,
            forall|i: int|
                0 <= i < j ==> r@[i] == ({
                    let b = #[trigger] bindings@[i];
                    RawBufferBinding {
                        buffer: device.buffers@[b.buffer.0 as int].unwrap().raw,
                        offset: b.offset,
                    }
                }),
        decreases n - j,
    {
        let b = &bindings[j];
        r.push(RawBufferBinding { buffer: device.buffer_raw(b.buffer), offset: b.offset });
        j += 1;
    }
    r
}

/// Resolve texture+sampler pairs to native tokens, keeping their order.
fn bind_sampler_pairs(device: &Device, bindings: &Vec<TextureSamplerBinding>) -> (r: Vec<
    RawTextureSamplerBinding,
>)
    requires
        device.wf(),
        forall|i: int|
            0 <= i < bindings@.len() ==> device.texture_resolvable(
                (#[trigger] bindings@[i]).texture,
            ) && device.samplers.live(bindings@[i].sampler.0 as int),
    ensures
        r@.len() == bindings@.len(),
        forall|i: int|
            0 <= i < bindings@.len() ==> r@[i] == ({
                let b = #[trigger] bindings@[i];
                RawTextureSamplerBinding {
                    texture: device.spec_texture_raw(b.texture),
                    sampler: device.samplers@[b.sampler.0 as int].unwrap().raw,
                }
            }),
{
    let mut r: Vec<RawTextureSamplerBinding> = Vec::new();
    let n = bindings.len();
    let mut j: usize = 0;
    while j < n
        invariant
            n == bindings@.len(),
            j <= n,
            device.wf(),
            forall|i: int|
                0 <= i < bindings@.len() ==> device.texture_resolvable(
                    (#[trigger] bindings@[i]).texture,
                ) && device.samplers.live(bindings@[i].sampler.0 as int),
            r@.len() == j,
            forall|i: int|
                0 <= i < j ==> r@[i] == ({
                    let b = #[trigger] bindings@[i];
                    RawTextureSamplerBinding {
                        texture: device.spec_texture_raw(b.texture),
                        sampler: device.samplers@[b.sampler.0 as int].unwrap().raw,
                    }
                }),
        decreases n - j,
    {
        let b = &bindings[j];
        r.push(
            RawTextureSamplerBinding {
                texture: device.texture_raw(b.texture),
                sampler: device.sampler_raw(b.sampler),
            },
        );
        j += 1;
    }
    r
}

/// At most one pass may be open on a command buffer at a time: while a
/// pass is open, or a begin call has reserved the slot and awaits the
/// native result, the slot cannot be taken, so the precondition of every
/// begin call refuses a second pass — and the reservation precedes the
/// native begin call, so the refusal comes before the native layer is
/// ever reached.
pub proof fn lemma_single_open_pass(cb: CommandBuffer)
    ensures
        !(cb.pass_state() is Idle) ==> !cb.can_begin_pass(),
{
}

} // verus!
