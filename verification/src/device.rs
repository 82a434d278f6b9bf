//! The device model: one registry per resource kind, the swapchain slot,
//! the reusable upload staging buffer with its deferred-release list, and
//! the in-flight command-buffer counter.
//!
//! Every native object is carried as an opaque nonzero `u64` token; the
//! token `0` marks a failed or absent object.  The caller performs the
//! native calls and hands their results in as plain values; the functions
//! here make every decision around those calls and keep the bookkeeping
//! that the decisions rest on.

use vstd::prelude::*;
use vstd::string::StringSliceAdditionalSpecFns;

use crate::error::{GpuError, NativeCall};
use crate::slot_map::{inserted, SlotMap};

verus! {

/// Handle to a texture stored in a `Device`.
#[derive(Clone, Copy, Debug, PartialEq, Eq, Structural)]
pub struct Texture(pub i32);

/// Handle to a shader stored in a `Device`.
#[derive(Clone, Copy, Debug, PartialEq, Eq, Structural)]
pub struct Shader(pub i32);

/// Handle to a graphics pipeline stored in a `Device`.
#[derive(Clone, Copy, Debug, PartialEq, Eq, Structural)]
pub struct GraphicsPipeline(pub i32);

/// Handle to a compute pipeline stored in a `Device`.
#[derive(Clone, Copy, Debug, PartialEq, Eq, Structural)]
pub struct ComputePipeline(pub i32);

/// Handle to a GPU buffer stored in a `Device`.
#[derive(Clone, Copy, Debug, PartialEq, Eq, Structural)]
pub struct GPUBuffer(pub i32);

/// Handle to a GPU sampler stored in a `Device`.
#[derive(Clone, Copy, Debug, PartialEq, Eq, Structural)]
pub struct Sampler(pub i32);

/// The handle value reserved for the current swapchain texture, which
/// lives in the per-device swapchain slot rather than in the texture
/// registry.
pub const SWAPCHAIN_HANDLE: i32 = -7777;

impl Texture {
    /// `self` is the reserved swapchain sentinel.
    pub open spec fn is_swapchain(self) -> bool {
        self.0 == SWAPCHAIN_HANDLE
    }

    /// The reserved handle for the current swapchain texture.
    pub fn swapchain() -> (t: Texture)
        ensures
            t.is_swapchain(),
            t == Texture(SWAPCHAIN_HANDLE),
    {
        Texture(SWAPCHAIN_HANDLE)
    }
}

/// A texture registry entry: the native token plus the cached resolution.
#[derive(Clone, Copy, Debug, PartialEq, Eq, Structural)]
pub struct TextureSlot {
    pub raw: u64,
    pub width: u32,
    pub height: u32,
}

/// A shader registry entry.
#[derive(Clone, Copy, Debug, PartialEq, Eq, Structural)]
pub struct ShaderSlot {
    pub raw: u64,
}

/// A graphics-pipeline registry entry.
#[derive(Clone, Copy, Debug, PartialEq, Eq, Structural)]
pub struct GraphicsPipelineSlot {
    pub raw: u64,
}

/// A compute-pipeline registry entry.
#[derive(Clone, Copy, Debug, PartialEq, Eq, Structural)]
pub struct ComputePipelineSlot {
    pub raw: u64,
}

/// A buffer registry entry: the native token plus the declared byte size.
#[derive(Clone, Copy, Debug, PartialEq, Eq, Structural)]
pub struct BufferSlot {
    pub raw: u64,
    pub size: u32,
}

/// A sampler registry entry.
#[derive(Clone, Copy, Debug, PartialEq, Eq, Structural)]
pub struct SamplerSlot {
    pub raw: u64,
}

/// The texture acquired from the swapchain by the command buffer currently
/// recording, or empty (`raw == 0`) when none is held.
#[derive(Clone, Copy, Debug, PartialEq, Eq, Structural)]
pub struct SwapchainState {
    pub raw: u64,
    pub width: u32,
    pub height: u32,
}

/// The reusable upload staging buffer: its token and its capacity in
/// bytes, or empty (`raw == 0`, `capacity == 0`) when none exists yet.
#[derive(Clone, Copy, Debug, PartialEq, Eq, Structural)]
pub struct StagingState {
    pub raw: u64,
    pub capacity: u32,
}

/// The device model.
///
/// The fields are public so that callers and tests can observe the model
/// directly; the functions below are the protocol that keeps it coherent.
pub struct Device {
    /// Token of the native device.
    pub raw: u64,
    /// Whether the device was created against a window.
    pub has_window: bool,
    pub textures: SlotMap<TextureSlot>,
    pub shaders: SlotMap<ShaderSlot>,
    pub graphics_pipelines: SlotMap<GraphicsPipelineSlot>,
    pub compute_pipelines: SlotMap<ComputePipelineSlot>,
    pub buffers: SlotMap<BufferSlot>,
    pub samplers: SlotMap<SamplerSlot>,
    pub swapchain: SwapchainState,
    pub staging: StagingState,
    /// Command buffers acquired but not yet submitted or cancelled.
    pub in_flight: u32,
    /// Staging buffers superseded by growth, awaiting release at quiescence.
    pub pending_staging: Vec<u64>,
}

impl Device {
    /// Every registry is well formed, and an absent staging buffer has no
    /// capacity.
    pub open spec fn wf(&self) -> bool {
        &&& self.textures.wf()
        &&& self.shaders.wf()
        &&& self.graphics_pipelines.wf()
        &&& self.compute_pipelines.wf()
        &&& self.buffers.wf()
        &&& self.samplers.wf()
        &&& self.staging.raw == 0 ==> self.staging.capacity == 0
    }

    /// Wrap a freshly created native device.
    ///
    /// `raw` is what the native creation call returned; `0` reports its
    /// failure.  `has_window` records whether a window was claimed for the
    /// device.
    pub fn new(raw: u64, has_window: bool) -> (r: Result<Device, GpuError>)
        ensures
            raw == 0 <==> r == Err::<Device, GpuError>(
                GpuError::NativeCallFailed(NativeCall::CreateDevice),
            ),
            raw != 0 ==> (r matches Ok(d) && d.wf() && d.raw == raw && d.has_window == has_window
                && d.textures@.len() == 0 && d.shaders@.len() == 0 && d.graphics_pipelines@.len()
                == 0 && d.compute_pipelines@.len() == 0 && d.buffers@.len() == 0
                && d.samplers@.len() == 0 && d.textures.free_len() == 0 && d.shaders.free_len()
                == 0 && d.graphics_pipelines.free_len() == 0 && d.compute_pipelines.free_len()
                == 0 && d.buffers.free_len() == 0 && d.samplers.free_len() == 0
                && d.swapchain.raw == 0 && d.staging == (StagingState {
                raw: 0,
                capacity: 0,
            }) && d.in_flight == 0 && d.pending_staging@.len() == 0),
    {
        if raw == 0 {
            return Err(GpuError::NativeCallFailed(NativeCall::CreateDevice));
        }
        Ok(
            Device {
                raw,
                has_window,
                textures: SlotMap::default(),
                shaders: SlotMap::default(),
                graphics_pipelines: SlotMap::default(),
                compute_pipelines: SlotMap::default(),
                buffers: SlotMap::default(),
                samplers: SlotMap::default(),
                swapchain: SwapchainState { raw: 0, width: 0, height: 0 },
                staging: StagingState { raw: 0, capacity: 0 },
                in_flight: 0,
                pending_staging: Vec::new(),
            },
        )
    }

    /// Register a texture the native layer created.
    ///
    /// `raw` is the native creation result (`0` for failure); `width` and
    /// `height` are cached from the creation description.
    pub fn create_texture(&mut self, raw: u64, width: u32, height: u32) -> (r: Result<
        Texture,
        GpuError,
    >)
        requires
            old(self).wf(),
            old(self).textures.can_insert(),
        ensures
            final(self).wf(),
            raw == 0 ==> r == Err::<Texture, GpuError>(
                GpuError::NativeCallFailed(NativeCall::CreateTexture),
            ) && *final(self) == *old(self),
            raw != 0 ==> (r matches Ok(h) && inserted(
                old(self).textures,
                final(self).textures,
                h.0 as int,
                TextureSlot { raw, width, height },
            ) && final(self).textures.live(h.0 as int) && *final(self) == (Device {
                textures: final(self).textures,
                ..*old(self)
            })),
    {
        if raw == 0 {
            return Err(GpuError::NativeCallFailed(NativeCall::CreateTexture));
        }
        let idx = self.textures.insert(TextureSlot { raw, width, height });
        Ok(Texture(idx))
    }

    /// Drop the registry entry for `handle`, returning the native token the
    /// caller must release.
    ///
    /// # Panics
    /// Panics if the handle was already destroyed or never existed.
    pub fn destroy_texture(&mut self, handle: Texture) -> (token: u64)
        requires
            old(self).wf(),
            old(self).textures.live(handle.0 as int),
        ensures
            final(self).wf(),
            token == old(self).textures@[handle.0 as int].unwrap().raw,
            final(self).textures@ == old(self).textures@.update(handle.0 as int, None),
            final(self).textures.free_list() == seq![handle.0 as int]
                + old(self).textures.free_list(),
            *final(self) == (Device { textures: final(self).textures, ..*old(self) }),
    {
        let slot = self.textures.remove(handle.0);
        slot.raw
    }

    /// Register a shader the native layer created from `info`.
    ///
    /// The entry-point string is checked first: one that holds an embedded
    /// terminator byte is rejected with `InvalidArgument`, and callers must
    /// make that check (through [`entrypoint_ok`]) before the native call,
    /// so that no native call happens for such an entry point.
    pub fn create_shader(&mut self, info: &ShaderCreateInfo, raw: u64) -> (r: Result<
        Shader,
        GpuError,
    >)
        requires
            old(self).wf(),
            old(self).shaders.can_insert(),
        ensures
            final(self).wf(),
            !no_embedded_nul(info.entrypoint.spec_bytes()) ==> r == Err::<Shader, GpuError>(
                GpuError::InvalidArgument,
            ) && *final(self) == *old(self),
            no_embedded_nul(info.entrypoint.spec_bytes()) && raw == 0 ==> r == Err::<
                Shader,
                GpuError,
            >(GpuError::NativeCallFailed(NativeCall::CreateShader)) && *final(self) == *old(self),
            no_embedded_nul(info.entrypoint.spec_bytes()) && raw != 0 ==> (r matches Ok(h)
                && inserted(old(self).shaders, final(self).shaders, h.0 as int, ShaderSlot { raw })
                && final(self).shaders.live(h.0 as int) && *final(self) == (Device {
                shaders: final(self).shaders,
                ..*old(self)
            })),
    {
        if !entrypoint_ok(info.entrypoint) {
            return Err(GpuError::InvalidArgument);
        }
        if raw == 0 {
            return Err(GpuError::NativeCallFailed(NativeCall::CreateShader));
        }
        let idx = self.shaders.insert(ShaderSlot { raw });
        Ok(Shader(idx))
    }

    /// Drop the registry entry for `handle`, returning the native token the
    /// caller must release.
    ///
    /// # Panics
    /// Panics if the handle was already destroyed or never existed.
    pub fn destroy_shader(&mut self, handle: Shader) -> (token: u64)
        requires
            old(self).wf(),
            old(self).shaders.live(handle.0 as int),
        ensures
            final(self).wf(),
            token == old(self).shaders@[handle.0 as int].unwrap().raw,
            final(self).shaders@ == old(self).shaders@.update(handle.0 as int, None),
            final(self).shaders.free_list() == seq![handle.0 as int] + old(self).shaders.free_list(),
            *final(self) == (Device { shaders: final(self).shaders, ..*old(self) }),
    {
        let slot = self.shaders.remove(handle.0);
        slot.raw
    }

    /// Register a graphics pipeline the native layer created.
    ///
    /// The shaders the pipeline was built from are resolved beforehand with
    /// [`Device::shader_raw`]; this step only records the result.
    pub fn create_graphics_pipeline(&mut self, raw: u64) -> (r: Result<GraphicsPipeline, GpuError>)
        requires
            old(self).wf(),
            old(self).graphics_pipelines.can_insert(),
        ensures
            final(self).wf(),
            raw == 0 ==> r == Err::<GraphicsPipeline, GpuError>(
                GpuError::NativeCallFailed(NativeCall::CreateGraphicsPipeline),
            ) && *final(self) == *old(self),
            raw != 0 ==> (r matches Ok(h) && inserted(
                old(self).graphics_pipelines,
                final(self).graphics_pipelines,
                h.0 as int,
                GraphicsPipelineSlot { raw },
            ) && final(self).graphics_pipelines.live(h.0 as int) && *final(self) == (Device {
                graphics_pipelines: final(self).graphics_pipelines,
                ..*old(self)
            })),
    {
        if raw == 0 {
            return Err(GpuError::NativeCallFailed(NativeCall::CreateGraphicsPipeline));
        }
        let idx = self.graphics_pipelines.insert(GraphicsPipelineSlot { raw });
        Ok(GraphicsPipeline(idx))
    }

    /// Drop the registry entry for `handle`, returning the native token the
    /// caller must release.
    ///
    /// # Panics
    /// Panics if the handle was already destroyed or never existed.
    pub fn destroy_graphics_pipeline(&mut self, handle: GraphicsPipeline) -> (token: u64)
        requires
            old(self).wf(),
            old(self).graphics_pipelines.live(handle.0 as int),
        ensures
            final(self).wf(),
            token == old(self).graphics_pipelines@[handle.0 as int].unwrap().raw,
            final(self).graphics_pipelines@ == old(self).graphics_pipelines@.update(
                handle.0 as int,
                None,
            ),
            final(self).graphics_pipelines.free_list() == seq![handle.0 as int] + old(self).graphics_pipelines.free_list(),
            *final(self) == (Device {
                graphics_pipelines: final(self).graphics_pipelines,
                ..*old(self)
            }),
    {
        let slot = self.graphics_pipelines.remove(handle.0);
        slot.raw
    }

    /// Register a compute pipeline the native layer created from `info`.
    ///
    /// The entry-point string is checked first, exactly as in
    /// [`Device::create_shader`].
    pub fn create_compute_pipeline(&mut self, info: &ComputePipelineCreateInfo, raw: u64) -> (r:
        Result<ComputePipeline, GpuError>)
        requires
            old(self).wf(),
            old(self).compute_pipelines.can_insert(),
        ensures
            final(self).wf(),
            !no_embedded_nul(info.entrypoint.spec_bytes()) ==> r == Err::<ComputePipeline, GpuError>(
                GpuError::InvalidArgument,
            ) && *final(self) == *old(self),
            no_embedded_nul(info.entrypoint.spec_bytes()) && raw == 0 ==> r == Err::<
                ComputePipeline,
                GpuError,
            >(GpuError::NativeCallFailed(NativeCall::CreateComputePipeline)) && *final(self) == *old(self),
            no_embedded_nul(info.entrypoint.spec_bytes()) && raw != 0 ==> (r matches Ok(h)
                && inserted(
                old(self).compute_pipelines,
                final(self).compute_pipelines,
                h.0 as int,
                ComputePipelineSlot { raw },
            ) && final(self).compute_pipelines.live(h.0 as int) && *final(self) == (Device {
                compute_pipelines: final(self).compute_pipelines,
                ..*old(self)
            })),
    {
        if !entrypoint_ok(info.entrypoint) {
            return Err(GpuError::InvalidArgument);
        }
        if raw == 0 {
            return Err(GpuError::NativeCallFailed(NativeCall::CreateComputePipeline));
        }
        let idx = self.compute_pipelines.insert(ComputePipelineSlot { raw });
        Ok(ComputePipeline(idx))
    }

    /// Drop the registry entry for `handle`, returning the native token the
    /// caller must release.
    ///
    /// # Panics
    /// Panics if the handle was already destroyed or never existed.
    pub fn destroy_compute_pipeline(&mut self, handle: ComputePipeline) -> (token: u64)
        requires
            old(self).wf(),
            old(self).compute_pipelines.live(handle.0 as int),
        ensures
            final(self).wf(),
            token == old(self).compute_pipelines@[handle.0 as int].unwrap().raw,
            final(self).compute_pipelines@ == old(self).compute_pipelines@.update(
                handle.0 as int,
                None,
            ),
            final(self).compute_pipelines.free_list() == seq![handle.0 as int] + old(self).compute_pipelines.free_list(),
            *final(self) == (Device {
                compute_pipelines: final(self).compute_pipelines,
                ..*old(self)
            }),
    {
        let slot = self.compute_pipelines.remove(handle.0);
        slot.raw
    }

    /// Register a buffer the native layer created, caching its declared
    /// byte size for later range checks.
    pub fn create_buffer(&mut self, raw: u64, size: u32) -> (r: Result<GPUBuffer, GpuError>)
        requires
            old(self).wf(),
            old(self).buffers.can_insert(),
        ensures
            final(self).wf(),
            raw == 0 ==> r == Err::<GPUBuffer, GpuError>(
                GpuError::NativeCallFailed(NativeCall::CreateBuffer),
            ) && *final(self) == *old(self),
            raw != 0 ==> (r matches Ok(h) && inserted(
                old(self).buffers,
                final(self).buffers,
                h.0 as int,
                BufferSlot { raw, size },
            ) && final(self).buffers.live(h.0 as int) && *final(self) == (Device {
                buffers: final(self).buffers,
                ..*old(self)
            })),
    {
        if raw == 0 {
            return Err(GpuError::NativeCallFailed(NativeCall::CreateBuffer));
        }
        let idx = self.buffers.insert(BufferSlot { raw, size });
        Ok(GPUBuffer(idx))
    }

    /// Drop the registry entry for `handle`, returning the native token the
    /// caller must release.
    ///
    /// # Panics
    /// Panics if the handle was already destroyed or never existed.
    pub fn destroy_buffer(&mut self, handle: GPUBuffer) -> (token: u64)
        requires
            old(self).wf(),
            old(self).buffers.live(handle.0 as int),
        ensures
            final(self).wf(),
            token == old(self).buffers@[handle.0 as int].unwrap().raw,
            final(self).buffers@ == old(self).buffers@.update(handle.0 as int, None),
            final(self).buffers.free_list() == seq![handle.0 as int] + old(self).buffers.free_list(),
            *final(self) == (Device { buffers: final(self).buffers, ..*old(self) }),
    {
        let slot = self.buffers.remove(handle.0);
        slot.raw
    }

    /// Register a sampler the native layer created.
    pub fn create_sampler(&mut self, raw: u64) -> (r: Result<Sampler, GpuError>)
        requires
            old(self).wf(),
            old(self).samplers.can_insert(),
        ensures
            final(self).wf(),
            raw == 0 ==> r == Err::<Sampler, GpuError>(
                GpuError::NativeCallFailed(NativeCall::CreateSampler),
            ) && *final(self) == *old(self),
            raw != 0 ==> (r matches Ok(h) && inserted(
                old(self).samplers,
                final(self).samplers,
                h.0 as int,
                SamplerSlot { raw },
            ) && final(self).samplers.live(h.0 as int) && *final(self) == (Device {
                samplers: final(self).samplers,
                ..*old(self)
            })),
    {
        if raw == 0 {
            return Err(GpuError::NativeCallFailed(NativeCall::CreateSampler));
        }
        let idx = self.samplers.insert(SamplerSlot { raw });
        Ok(Sampler(idx))
    }

    /// Drop the registry entry for `handle`, returning the native token the
    /// caller must release.
    ///
    /// # Panics
    /// Panics if the handle was already destroyed or never existed.
    pub fn destroy_sampler(&mut self, handle: Sampler) -> (token: u64)
        requires
            old(self).wf(),
            old(self).samplers.live(handle.0 as int),
        ensures
            final(self).wf(),
            token == old(self).samplers@[handle.0 as int].unwrap().raw,
            final(self).samplers@ == old(self).samplers@.update(handle.0 as int, None),
            final(self).samplers.free_list() == seq![handle.0 as int] + old(self).samplers.free_list(),
            *final(self) == (Device { samplers: final(self).samplers, ..*old(self) }),
    {
        let slot = self.samplers.remove(handle.0);
        slot.raw
    }

    /// `handle` can be resolved to a native texture: it is either the
    /// swapchain sentinel while a swapchain texture is held, or a live
    /// registry entry.
    pub open spec fn texture_resolvable(&self, handle: Texture) -> bool {
        if handle.is_swapchain() {
            self.swapchain.raw != 0
        } else {
            self.textures.live(handle.0 as int)
        }
    }

    /// What `handle` resolves to.
    pub open spec fn spec_texture_raw(&self, handle: Texture) -> u64 {
        if handle.is_swapchain() {
            self.swapchain.raw
        } else {
            self.textures@[handle.0 as int].unwrap().raw
        }
    }

    /// Resolve a texture handle to its native token.  The swapchain
    /// sentinel resolves to the currently held swapchain texture.
    ///
    /// # Panics
    /// Panics if the handle is stale, or if it is the swapchain sentinel
    /// while no swapchain texture is held.
    pub fn texture_raw(&self, handle: Texture) -> (token: u64)
        requires
            self.wf(),
            self.texture_resolvable(handle),
        ensures
            token == self.spec_texture_raw(handle),
    {
        if handle.0 == SWAPCHAIN_HANDLE {
            if self.swapchain.raw == 0 {
                unreached()
            } else {
                self.swapchain.raw
            }
        } else {
            self.textures.get(handle.0).raw
        }
    }

    /// The resolution of the texture `handle` resolves to.
    ///
    /// # Panics
    /// As [`Device::texture_raw`].
    pub fn texture_res(&self, handle: Texture) -> (res: (u32, u32))
        requires
            self.wf(),
            self.texture_resolvable(handle),
        ensures
            handle.is_swapchain() ==> res == (self.swapchain.width, self.swapchain.height),
            !handle.is_swapchain() ==> res == (
                self.textures@[handle.0 as int].unwrap().width,
                self.textures@[handle.0 as int].unwrap().height,
            ),
    {
        if handle.0 == SWAPCHAIN_HANDLE {
            if self.swapchain.raw == 0 {
                unreached()
            } else {
                (self.swapchain.width, self.swapchain.height)
            }
        } else {
            let slot = self.textures.get(handle.0);
            (slot.width, slot.height)
        }
    }

    /// Resolve a shader handle to its native token.
    ///
    /// # Panics
    /// Panics if the handle is stale.
    pub fn shader_raw(&self, handle: Shader) -> (token: u64)
        requires
            self.wf(),
            self.shaders.live(handle.0 as int),
        ensures
            token == self.shaders@[handle.0 as int].unwrap().raw,
    {
        self.shaders.get(handle.0).raw
    }

    /// Resolve a graphics-pipeline handle to its native token.
    ///
    /// # Panics
    /// Panics if the handle is stale.
    pub fn graphics_pipeline_raw(&self, handle: GraphicsPipeline) -> (token: u64)
        requires
            self.wf(),
            self.graphics_pipelines.live(handle.0 as int),
        ensures
            token == self.graphics_pipelines@[handle.0 as int].unwrap().raw,
    {
        self.graphics_pipelines.get(handle.0).raw
    }

    /// Resolve a compute-pipeline handle to its native token.
    ///
    /// # Panics
    /// Panics if the handle is stale.
    pub fn compute_pipeline_raw(&self, handle: ComputePipeline) -> (token: u64)
        requires
            self.wf(),
            self.compute_pipelines.live(handle.0 as int),
        ensures
            token == self.compute_pipelines@[handle.0 as int].unwrap().raw,
    {
        self.compute_pipelines.get(handle.0).raw
    }

    /// Resolve a buffer handle to its native token.
    ///
    /// # Panics
    /// Panics if the handle is stale.
    pub fn buffer_raw(&self, handle: GPUBuffer) -> (token: u64)
        requires
            self.wf(),
            self.buffers.live(handle.0 as int),
        ensures
            token == self.buffers@[handle.0 as int].unwrap().raw,
    {
        self.buffers.get(handle.0).raw
    }

    /// Resolve a sampler handle to its native token.
    ///
    /// # Panics
    /// Panics if the handle is stale.
    pub fn sampler_raw(&self, handle: Sampler) -> (token: u64)
        requires
            self.wf(),
            self.samplers.live(handle.0 as int),
        ensures
            token == self.samplers@[handle.0 as int].unwrap().raw,
    {
        self.samplers.get(handle.0).raw
    }

    /// Whether `handle` currently resolves, as [`Device::texture_raw`]
    /// demands.
    pub fn texture_live(&self, handle: Texture) -> (r: bool)
        requires
            self.wf(),
        ensures
            r == self.texture_resolvable(handle),
    {
        if handle.0 == SWAPCHAIN_HANDLE {
            self.swapchain.raw != 0
        } else {
            self.textures.contains(handle.0)
        }
    }

    /// Whether `handle` names a live shader.
    pub fn shader_live(&self, handle: Shader) -> (r: bool)
        requires
            self.wf(),
        ensures
            r == self.shaders.live(handle.0 as int),
    {
        self.shaders.contains(handle.0)
    }

    /// Whether `handle` names a live graphics pipeline.
    pub fn graphics_pipeline_live(&self, handle: GraphicsPipeline) -> (r: bool)
        requires
            self.wf(),
        ensures
            r == self.graphics_pipelines.live(handle.0 as int),
    {
        self.graphics_pipelines.contains(handle.0)
    }

    /// Whether `handle` names a live compute pipeline.
    pub fn compute_pipeline_live(&self, handle: ComputePipeline) -> (r: bool)
        requires
            self.wf(),
        ensures
            r == self.compute_pipelines.live(handle.0 as int),
    {
        self.compute_pipelines.contains(handle.0)
    }

    /// Whether `handle` names a live buffer.
    pub fn buffer_live(&self, handle: GPUBuffer) -> (r: bool)
        requires
            self.wf(),
        ensures
            r == self.buffers.live(handle.0 as int),
    {
        self.buffers.contains(handle.0)
    }

    /// Whether `handle` names a live sampler.
    pub fn sampler_live(&self, handle: Sampler) -> (r: bool)
        requires
            self.wf(),
        ensures
            r == self.samplers.live(handle.0 as int),
    {
        self.samplers.contains(handle.0)
    }
}

impl Device {
    /// A new staging buffer must be created before an upload of `size`
    /// bytes can be staged: none exists yet, or the existing one is too
    /// small.  The staging buffer is never shrunk, only grown.
    pub open spec fn staging_grow_needed(&self, size: u32) -> bool {
        self.staging.raw == 0 || self.staging.capacity < size
    }

    /// Which staging buffer an upload of `size` bytes needs: `None` to
    /// reuse the current one, `Some(size)` when the caller must create a
    /// native staging buffer of exactly `size` bytes and install it.
    pub fn staging_request(&self, size: u32) -> (r: Option<u32>)
        ensures
            r == (if self.staging_grow_needed(size) {
                Some(size)
            } else {
                None::<u32>
            }),
    {
        if self.staging.raw == 0 || self.staging.capacity < size {
            Some(size)
        } else {
            None
        }
    }

    /// Install a freshly created staging buffer of `size` bytes.
    ///
    /// The superseded staging buffer (if any) is not released: its token
    /// moves onto the pending-release list, because in-flight work may
    /// still read through it; it is handed back for release only when the
    /// in-flight counter reaches zero.  `raw` is the native creation
    /// result; on failure (`0`) the device is left with no staging buffer.
    pub fn install_staging(&mut self, size: u32, raw: u64) -> (r: Result<(), GpuError>)
        requires
            old(self).wf(),
            old(self).staging_grow_needed(size),
        ensures
            final(self).wf(),
            final(self).pending_staging@ == (if old(self).staging.raw != 0 {
                old(self).pending_staging@.push(old(self).staging.raw)
            } else {
                old(self).pending_staging@
            }),
            raw == 0 ==> r == Err::<(), GpuError>(
                GpuError::NativeCallFailed(NativeCall::CreateTransferBuffer),
            ) && final(self).staging == (StagingState { raw: 0, capacity: 0 }),
            raw != 0 ==> r == Ok::<(), GpuError>(()) && final(self).staging == (StagingState {
                raw,
                capacity: size,
            }),
            *final(self) == (Device {
                staging: final(self).staging,
                pending_staging: final(self).pending_staging,
                ..*old(self)
            }),
    {
        if self.staging.raw != 0 {
            let superseded = self.staging.raw;
            self.pending_staging.push(superseded);
        }
        if raw == 0 {
            self.staging = StagingState { raw: 0, capacity: 0 };
            return Err(GpuError::NativeCallFailed(NativeCall::CreateTransferBuffer));
        }
        self.staging = StagingState { raw, capacity: size };
        Ok(())
    }

    /// Stage `data_len` bytes and copy them into `buffer` at `offset`.
    ///
    /// The range is checked first: a range past the buffer's declared size
    /// is rejected with `OutOfRange` before anything else, so no native
    /// call belongs to such a request.  Otherwise the caller is told either
    /// to grow the staging buffer first (and call again), or exactly which
    /// copy to perform.  The device itself is not changed.
    pub fn upload_to_buffer(
        &self,
        pass: Option<&crate::command::CopyPass>,
        buffer: GPUBuffer,
        offset: u32,
        data_len: u32,
    ) -> (r: Result<BufferUploadStep, GpuError>)
        requires
            self.wf(),
            self.buffers.live(buffer.0 as int),
        ensures
            ({
                let slot = self.buffers@[buffer.0 as int].unwrap();
                &&& (offset + data_len > slot.size <==> r == Err::<BufferUploadStep, GpuError>(
                    GpuError::OutOfRange,
                ))
                &&& (offset + data_len <= slot.size && self.staging_grow_needed(data_len) ==> r
                    == Ok::<BufferUploadStep, GpuError>(BufferUploadStep::GrowStaging(data_len)))
                &&& (offset + data_len <= slot.size && !self.staging_grow_needed(data_len) ==> r
                    == Ok::<BufferUploadStep, GpuError>(
                    BufferUploadStep::Copy(
                        BufferUploadOp {
                            staging: self.staging.raw,
                            dst: slot.raw,
                            dst_offset: offset,
                            size: data_len,
                            pass: (match pass {
                                Some(p) => Some(p.spec_raw()),
                                None => None,
                            }),
                        },
                    ),
                ))
            }),
    {
        let slot = self.buffers.get(buffer.0);
        if offset as u64 + data_len as u64 > slot.size as u64 {
            return Err(GpuError::OutOfRange);
        }
        if self.staging.raw == 0 || self.staging.capacity < data_len {
            return Ok(BufferUploadStep::GrowStaging(data_len));
        }
        let pass_raw = match pass {
            Some(p) => Some(p.raw()),
            None => None,
        };
        Ok(
            BufferUploadStep::Copy(
                BufferUploadOp {
                    staging: self.staging.raw,
                    dst: slot.raw,
                    dst_offset: offset,
                    size: data_len,
                    pass: pass_raw,
                },
            ),
        )
    }

    /// Stage `data_len` bytes and copy them into a texture region, with
    /// the same staging discipline as [`Device::upload_to_buffer`] (no
    /// range check applies: the native layer owns texel layout).
    pub fn upload_to_texture(
        &self,
        pass: Option<&crate::command::CopyPass>,
        region: &TextureRegion,
        data_len: u32,
    ) -> (r: TextureUploadStep)
        requires
            self.wf(),
            self.texture_resolvable(region.texture),
        ensures
            self.staging_grow_needed(data_len) ==> r == TextureUploadStep::GrowStaging(data_len),
            !self.staging_grow_needed(data_len) ==> r == TextureUploadStep::Copy(
                TextureUploadOp {
                    staging: self.staging.raw,
                    region: region.spec_to_raw(self),
                    size: data_len,
                    pass: (match pass {
                        Some(p) => Some(p.spec_raw()),
                        None => None,
                    }),
                },
            ),
    {
        if self.staging.raw == 0 || self.staging.capacity < data_len {
            return TextureUploadStep::GrowStaging(data_len);
        }
        let pass_raw = match pass {
            Some(p) => Some(p.raw()),
            None => None,
        };
        TextureUploadStep::Copy(
            TextureUploadOp {
                staging: self.staging.raw,
                region: region.to_raw(self),
                size: data_len,
                pass: pass_raw,
            },
        )
    }

    /// Read `size` bytes back from `buffer` at `offset`; a `size` of `0`
    /// means the rest of the buffer from `offset`.
    ///
    /// The range is checked against the buffer's declared size and a range
    /// past it is rejected with `OutOfRange`.  The copy the caller must
    /// perform goes through a dedicated, throwaway download staging buffer
    /// and blocks on a fence, so nothing of it touches the device model.
    pub fn download_from_buffer(&self, buffer: GPUBuffer, offset: u32, size: u32) -> (r: Result<
        DownloadOp,
        GpuError,
    >)
        requires
            self.wf(),
            self.buffers.live(buffer.0 as int),
        ensures
            ({
                let slot = self.buffers@[buffer.0 as int].unwrap();
                let oob = if size == 0 {
                    offset > slot.size
                } else {
                    offset + size > slot.size
                };
                &&& (oob <==> r == Err::<DownloadOp, GpuError>(GpuError::OutOfRange))
                &&& (!oob ==> r == Ok::<DownloadOp, GpuError>(
                    DownloadOp {
                        src: slot.raw,
                        offset,
                        size: (if size == 0 {
                            (slot.size - offset) as u32
                        } else {
                            size
                        }),
                    },
                ))
            }),
    {
        let slot = self.buffers.get(buffer.0);
        if size == 0 {
            if offset > slot.size {
                return Err(GpuError::OutOfRange);
            }
            return Ok(DownloadOp { src: slot.raw, offset, size: slot.size - offset });
        }
        if offset as u64 + size as u64 > slot.size as u64 {
            return Err(GpuError::OutOfRange);
        }
        Ok(DownloadOp { src: slot.raw, offset, size })
    }
}

/// One buffer upload, resolved to native tokens: map `staging`, copy the
/// bytes in, unmap, then record a copy of `size` bytes from the start of
/// `staging` into `dst` at `dst_offset` — into the open copy pass `pass`,
/// or into a throwaway command buffer and pass when `pass` is `None`.
#[derive(Clone, Copy, Debug, PartialEq, Eq)]
pub struct BufferUploadOp {
    pub staging: u64,
    pub dst: u64,
    pub dst_offset: u32,
    pub size: u32,
    pub pass: Option<u64>,
}

/// The next step of a buffer upload.
#[derive(Clone, Copy, Debug, PartialEq, Eq)]
pub enum BufferUploadStep {
    /// Create a native staging buffer of this many bytes, install it with
    /// [`Device::install_staging`], and ask again.
    GrowStaging(u32),
    /// Perform this copy.
    Copy(BufferUploadOp),
}

/// One texture upload, resolved to native tokens.
#[derive(Clone, Copy, Debug, PartialEq, Eq)]
pub struct TextureUploadOp {
    pub staging: u64,
    pub region: RawTextureRegion,
    pub size: u32,
    pub pass: Option<u64>,
}

/// The next step of a texture upload.
#[derive(Clone, Copy, Debug, PartialEq, Eq)]
pub enum TextureUploadStep {
    /// Create a native staging buffer of this many bytes, install it with
    /// [`Device::install_staging`], and ask again.
    GrowStaging(u32),
    /// Perform this copy.
    Copy(TextureUploadOp),
}

/// One download, resolved to native tokens: copy `size` bytes from `src`
/// at `offset` into a dedicated download staging buffer, fence, block,
/// and read the bytes out.
#[derive(Clone, Copy, Debug, PartialEq, Eq, Structural)]
pub struct DownloadOp {
    pub src: u64,
    pub offset: u32,
    pub size: u32,
}

/// Native enumeration value: keep the contents of a target.
pub const LOAD_OP_LOAD: u32 = 0;

/// Native enumeration value: clear the target at the start of the pass.
pub const LOAD_OP_CLEAR: u32 = 1;

/// Native enumeration value: the previous contents are irrelevant.
pub const LOAD_OP_DONT_CARE: u32 = 2;

/// Native enumeration value: store the results of the pass.
pub const STORE_OP_STORE: u32 = 0;

/// Native enumeration value: no flip.
pub const FLIP_NONE: u32 = 0;

/// Native enumeration value: nearest-neighbour filtering.
pub const FILTER_NEAREST: u32 = 0;

/// A region of a texture, using a safe `Texture` handle instead of a
/// native token.
#[derive(Clone, Copy, Debug, PartialEq, Eq, Structural)]
pub struct TextureRegion {
    pub texture: Texture,
    pub mip_level: u32,
    pub layer: u32,
    pub x: u32,
    pub y: u32,
    pub z: u32,
    pub w: u32,
    pub h: u32,
    pub d: u32,
}

/// A texture region with its handle resolved to the native token.
#[derive(Clone, Copy, Debug, PartialEq, Eq, Structural)]
pub struct RawTextureRegion {
    pub texture: u64,
    pub mip_level: u32,
    pub layer: u32,
    pub x: u32,
    pub y: u32,
    pub z: u32,
    pub w: u32,
    pub h: u32,
    pub d: u32,
}

impl TextureRegion {
    /// A region covering the whole of `texture` at mip level zero.
    pub fn full(texture: Texture, device: &Device) -> (r: Self)
        requires
            device.wf(),
            device.texture_resolvable(texture),
        ensures
            r.texture == texture,
            r.mip_level == 0 && r.layer == 0 && r.x == 0 && r.y == 0 && r.z == 0,
            !texture.is_swapchain() ==> r.w == device.textures@[texture.0 as int].unwrap().width
                && r.h == device.textures@[texture.0 as int].unwrap().height,
            texture.is_swapchain() ==> r.w == device.swapchain.width && r.h
                == device.swapchain.height,
            r.d == 1,
    {
        let (w, h) = device.texture_res(texture);
        TextureRegion { texture, mip_level: 0, layer: 0, x: 0, y: 0, z: 0, w, h, d: 1 }
    }

    /// This region with its handle resolved.
    pub open spec fn spec_to_raw(&self, device: &Device) -> RawTextureRegion {
        RawTextureRegion {
            texture: device.spec_texture_raw(self.texture),
            mip_level: self.mip_level,
            layer: self.layer,
            x: self.x,
            y: self.y,
            z: self.z,
            w: self.w,
            h: self.h,
            d: self.d,
        }
    }

    /// Resolve the handle in this region to its native token.
    ///
    /// # Panics
    /// As [`Device::texture_raw`].
    pub fn to_raw(&self, device: &Device) -> (r: RawTextureRegion)
        requires
            device.wf(),
            device.texture_resolvable(self.texture),
        ensures
            r == self.spec_to_raw(device),
    {
        RawTextureRegion {
            texture: device.texture_raw(self.texture),
            mip_level: self.mip_level,
            layer: self.layer,
            x: self.x,
            y: self.y,
            z: self.z,
            w: self.w,
            h: self.h,
            d: self.d,
        }
    }
}

/// A color target for a render pass, over handles and plain values.  The
/// clear color is not part of the model: the caller supplies it directly
/// to the native layer, which is the only reader of it.
#[derive(Clone, Copy, Debug, PartialEq, Eq, Structural)]
pub struct ColorTargetInfo {
    /// The texture that will be used as a color target by a render pass.
    pub texture: Texture,
    /// The mip level to use as a color target.
    pub mip_level: u32,
    /// The layer index or depth plane to use as a color target.
    pub layer_or_depth_plane: u32,
    /// Native enumeration value: what is done with the contents of the
    /// color target at the beginning of the render pass.
    pub load_op: u32,
    /// Native enumeration value: what is done with the results of the
    /// render pass.
    pub store_op: u32,
    /// The texture that will receive the results of a multisample resolve
    /// operation.
    pub resolve_texture: Option<Texture>,
    /// The mip level of the resolve texture to use for the resolve
    /// operation.
    pub resolve_mip_level: u32,
    /// The layer index of the resolve texture to use for the resolve
    /// operation.
    pub resolve_layer: u32,
    /// Cycle the texture if it is bound and `load_op` does not load.
    pub cycle: bool,
    /// Cycle the resolve texture if it is bound.
    pub cycle_resolve_texture: bool,
}

/// A color target with its handles resolved to native tokens (`0` for an
/// absent resolve texture).
#[derive(Clone, Copy, Debug, PartialEq, Eq, Structural)]
pub struct RawColorTargetInfo {
    pub texture: u64,
    pub mip_level: u32,
    pub layer_or_depth_plane: u32,
    pub load_op: u32,
    pub store_op: u32,
    pub resolve_texture: u64,
    pub resolve_mip_level: u32,
    pub resolve_layer: u32,
    pub cycle: bool,
    pub cycle_resolve_texture: bool,
}

impl ColorTargetInfo {
    /// A target on `texture` with default operations: load the previous
    /// contents, store the results, no resolve, no cycling.
    pub fn new(texture: Texture) -> (r: Self)
        ensures
            r == (ColorTargetInfo {
                texture,
                mip_level: 0,
                layer_or_depth_plane: 0,
                load_op: LOAD_OP_LOAD,
                store_op: STORE_OP_STORE,
                resolve_texture: None,
                resolve_mip_level: 0,
                resolve_layer: 0,
                cycle: false,
                cycle_resolve_texture: false,
            }),
    {
        ColorTargetInfo {
            texture,
            mip_level: 0,
            layer_or_depth_plane: 0,
            load_op: LOAD_OP_LOAD,
            store_op: STORE_OP_STORE,
            resolve_texture: None,
            resolve_mip_level: 0,
            resolve_layer: 0,
            cycle: false,
            cycle_resolve_texture: false,
        }
    }

    /// Every handle in this target can be resolved on `device`.
    pub open spec fn resolvable(&self, device: &Device) -> bool {
        &&& device.texture_resolvable(self.texture)
        &&& (self.resolve_texture matches Some(t) ==> device.texture_resolvable(t))
    }

    /// This target with its handles resolved.
    pub open spec fn spec_to_raw(&self, device: &Device) -> RawColorTargetInfo {
        RawColorTargetInfo {
            texture: device.spec_texture_raw(self.texture),
            mip_level: self.mip_level,
            layer_or_depth_plane: self.layer_or_depth_plane,
            load_op: self.load_op,
            store_op: self.store_op,
            resolve_texture: (match self.resolve_texture {
                Some(t) => device.spec_texture_raw(t),
                None => 0,
            }),
            resolve_mip_level: self.resolve_mip_level,
            resolve_layer: self.resolve_layer,
            cycle: self.cycle,
            cycle_resolve_texture: self.cycle_resolve_texture,
        }
    }

    /// Resolve the handles in this target to native tokens.
    ///
    /// # Panics
    /// As [`Device::texture_raw`], for either texture.
    pub fn to_raw(&self, device: &Device) -> (r: RawColorTargetInfo)
        requires
            device.wf(),
            self.resolvable(device),
        ensures
            r == self.spec_to_raw(device),
    {
        let resolve = match &self.resolve_texture {
            Some(t) => device.texture_raw(*t),
            None => 0,
        };
        RawColorTargetInfo {
            texture: device.texture_raw(self.texture),
            mip_level: self.mip_level,
            layer_or_depth_plane: self.layer_or_depth_plane,
            load_op: self.load_op,
            store_op: self.store_op,
            resolve_texture: resolve,
            resolve_mip_level: self.resolve_mip_level,
            resolve_layer: self.resolve_layer,
            cycle: self.cycle,
            cycle_resolve_texture: self.cycle_resolve_texture,
        }
    }
}

/// A depth-stencil target for a render pass.  The depth clear value is not
/// part of the model: the caller supplies it directly to the native layer.
#[derive(Clone, Copy, Debug, PartialEq, Eq, Structural)]
pub struct DepthStencilTargetInfo {
    /// The texture that will be used as the depth stencil target.
    pub texture: Texture,
    /// Native enumeration value: what is done with the depth contents at
    /// the beginning of the render pass.
    pub load_op: u32,
    /// Native enumeration value: what is done with the depth results.
    pub store_op: u32,
    /// Native enumeration value: what is done with the stencil contents at
    /// the beginning of the render pass.
    pub stencil_load_op: u32,
    /// Native enumeration value: what is done with the stencil results.
    pub stencil_store_op: u32,
    /// Cycle the texture if it is bound and any load op does not load.
    pub cycle: bool,
    /// The value to clear the stencil component to.
    pub clear_stencil: u8,
    /// The mip level to use as the depth stencil target.
    pub mip_level: u8,
    /// The layer index to use as the depth stencil target.
    pub layer: u8,
}

/// A depth-stencil target with its handle resolved to the native token.
#[derive(Clone, Copy, Debug, PartialEq, Eq, Structural)]
pub struct RawDepthStencilTargetInfo {
    pub texture: u64,
    pub load_op: u32,
    pub store_op: u32,
    pub stencil_load_op: u32,
    pub stencil_store_op: u32,
    pub cycle: bool,
    pub clear_stencil: u8,
    pub mip_level: u8,
    pub layer: u8,
}

impl DepthStencilTargetInfo {
    /// A target on `texture` with default operations and no cycling.
    pub fn new(texture: Texture) -> (r: Self)
        ensures
            r == (DepthStencilTargetInfo {
                texture,
                load_op: LOAD_OP_LOAD,
                store_op: STORE_OP_STORE,
                stencil_load_op: LOAD_OP_LOAD,
                stencil_store_op: STORE_OP_STORE,
                cycle: false,
                clear_stencil: 0,
                mip_level: 0,
                layer: 0,
            }),
    {
        DepthStencilTargetInfo {
            texture,
            load_op: LOAD_OP_LOAD,
            store_op: STORE_OP_STORE,
            stencil_load_op: LOAD_OP_LOAD,
            stencil_store_op: STORE_OP_STORE,
            cycle: false,
            clear_stencil: 0,
            mip_level: 0,
            layer: 0,
        }
    }

    /// This target with its handle resolved.
    pub open spec fn spec_to_raw(&self, device: &Device) -> RawDepthStencilTargetInfo {
        RawDepthStencilTargetInfo {
            texture: device.spec_texture_raw(self.texture),
            load_op: self.load_op,
            store_op: self.store_op,
            stencil_load_op: self.stencil_load_op,
            stencil_store_op: self.stencil_store_op,
            cycle: self.cycle,
            clear_stencil: self.clear_stencil,
            mip_level: self.mip_level,
            layer: self.layer,
        }
    }

    /// Resolve the handle in this target to its native token.
    ///
    /// # Panics
    /// As [`Device::texture_raw`].
    pub fn to_raw(&self, device: &Device) -> (r: RawDepthStencilTargetInfo)
        requires
            device.wf(),
            device.texture_resolvable(self.texture),
        ensures
            r == self.spec_to_raw(device),
    {
        RawDepthStencilTargetInfo {
            texture: device.texture_raw(self.texture),
            load_op: self.load_op,
            store_op: self.store_op,
            stencil_load_op: self.stencil_load_op,
            stencil_store_op: self.stencil_store_op,
            cycle: self.cycle,
            clear_stencil: self.clear_stencil,
            mip_level: self.mip_level,
            layer: self.layer,
        }
    }
}

/// A region of a texture used in a blit operation.
#[derive(Clone, Copy, Debug, PartialEq, Eq, Structural)]
pub struct BlitRegion {
    /// The texture.
    pub texture: Texture,
    /// The mip level index of the region.
    pub mip_level: u32,
    /// The layer index or depth plane of the region.
    pub layer_or_depth_plane: u32,
    /// The left offset of the region.
    pub x: u32,
    /// The top offset of the region.
    pub y: u32,
    /// The width of the region.
    pub w: u32,
    /// The height of the region.
    pub h: u32,
}

/// A blit region with its handle resolved to the native token.
#[derive(Clone, Copy, Debug, PartialEq, Eq, Structural)]
pub struct RawBlitRegion {
    pub texture: u64,
    pub mip_level: u32,
    pub layer_or_depth_plane: u32,
    pub x: u32,
    pub y: u32,
    pub w: u32,
    pub h: u32,
}

impl BlitRegion {
    /// A blit region covering the full `w` by `h` texture.
    pub fn full(texture: Texture, w: u32, h: u32) -> (r: Self)
        ensures
            r == (BlitRegion { texture, mip_level: 0, layer_or_depth_plane: 0, x: 0, y: 0, w, h }),
    {
        BlitRegion { texture, mip_level: 0, layer_or_depth_plane: 0, x: 0, y: 0, w, h }
    }

    /// This region with its handle resolved.
    pub open spec fn spec_to_raw(&self, device: &Device) -> RawBlitRegion {
        RawBlitRegion {
            texture: device.spec_texture_raw(self.texture),
            mip_level: self.mip_level,
            layer_or_depth_plane: self.layer_or_depth_plane,
            x: self.x,
            y: self.y,
            w: self.w,
            h: self.h,
        }
    }

    /// Resolve the handle in this region to its native token.
    ///
    /// # Panics
    /// As [`Device::texture_raw`].
    pub fn to_raw(&self, device: &Device) -> (r: RawBlitRegion)
        requires
            device.wf(),
            device.texture_resolvable(self.texture),
        ensures
            r == self.spec_to_raw(device),
    {
        RawBlitRegion {
            texture: device.texture_raw(self.texture),
            mip_level: self.mip_level,
            layer_or_depth_plane: self.layer_or_depth_plane,
            x: self.x,
            y: self.y,
            w: self.w,
            h: self.h,
        }
    }
}

/// Parameters for a blit (texture copy with optional scaling/filtering).
/// The clear color is not part of the model: the caller supplies it
/// directly to the native layer.
#[derive(Clone, Copy, Debug, PartialEq, Eq, Structural)]
pub struct BlitInfo {
    /// The source region for the blit.
    pub source: BlitRegion,
    /// The destination region for the blit.
    pub destination: BlitRegion,
    /// Native enumeration value: what is done with the destination before
    /// the blit.
    pub load_op: u32,
    /// Native enumeration value: the flip mode for the source region.
    pub flip_mode: u32,
    /// Native enumeration value: the filter mode used when blitting.
    pub filter: u32,
    /// Cycle the destination texture if it is already bound.
    pub cycle: bool,
}

/// Blit parameters with both handles resolved to native tokens.
#[derive(Clone, Copy, Debug, PartialEq, Eq, Structural)]
pub struct RawBlitInfo {
    pub source: RawBlitRegion,
    pub destination: RawBlitRegion,
    pub load_op: u32,
    pub flip_mode: u32,
    pub filter: u32,
    pub cycle: bool,
}

impl BlitInfo {
    /// Blit parameters with defaults: the destination's previous contents
    /// are irrelevant, no flip, nearest filtering, no cycling.
    pub fn new(source: BlitRegion, destination: BlitRegion) -> (r: Self)
        ensures
            r == (BlitInfo {
                source,
                destination,
                load_op: LOAD_OP_DONT_CARE,
                flip_mode: FLIP_NONE,
                filter: FILTER_NEAREST,
                cycle: false,
            }),
    {
        BlitInfo {
            source,
            destination,
            load_op: LOAD_OP_DONT_CARE,
            flip_mode: FLIP_NONE,
            filter: FILTER_NEAREST,
            cycle: false,
        }
    }

    /// Both regions resolve on `device`.
    pub open spec fn resolvable(&self, device: &Device) -> bool {
        &&& device.texture_resolvable(self.source.texture)
        &&& device.texture_resolvable(self.destination.texture)
    }

    /// These parameters with both handles resolved.
    pub open spec fn spec_to_raw(&self, device: &Device) -> RawBlitInfo {
        RawBlitInfo {
            source: self.source.spec_to_raw(device),
            destination: self.destination.spec_to_raw(device),
            load_op: self.load_op,
            flip_mode: self.flip_mode,
            filter: self.filter,
            cycle: self.cycle,
        }
    }

    /// Resolve both handles to native tokens.
    ///
    /// # Panics
    /// As [`Device::texture_raw`], for either region.
    pub fn to_raw(&self, device: &Device) -> (r: RawBlitInfo)
        requires
            device.wf(),
            self.resolvable(device),
        ensures
            r == self.spec_to_raw(device),
    {
        RawBlitInfo {
            source: self.source.to_raw(device),
            destination: self.destination.to_raw(device),
            load_op: self.load_op,
            flip_mode: self.flip_mode,
            filter: self.filter,
            cycle: self.cycle,
        }
    }
}

/// A texture+sampler pair for binding to a shader slot.
#[derive(Clone, Copy, Debug, PartialEq, Eq, Structural)]
pub struct TextureSamplerBinding {
    pub texture: Texture,
    pub sampler: Sampler,
}

/// A texture+sampler pair resolved to native tokens.
#[derive(Clone, Copy, Debug, PartialEq, Eq, Structural)]
pub struct RawTextureSamplerBinding {
    pub texture: u64,
    pub sampler: u64,
}

/// A buffer range to bind.
#[derive(Clone, Copy, Debug, PartialEq, Eq, Structural)]
pub struct GPUBufferBinding {
    /// The buffer to bind.
    pub buffer: GPUBuffer,
    /// The starting byte offset within the buffer.
    pub offset: u32,
}

/// A buffer range resolved to its native token.
#[derive(Clone, Copy, Debug, PartialEq, Eq, Structural)]
pub struct RawBufferBinding {
    pub buffer: u64,
    pub offset: u32,
}

/// A read-write storage buffer binding for a compute pass.
#[derive(Clone, Copy, Debug, PartialEq, Eq, Structural)]
pub struct StorageBufferReadWriteBinding {
    pub buffer: GPUBuffer,
    pub cycle: bool,
}

/// A read-write storage buffer binding resolved to its native token.
#[derive(Clone, Copy, Debug, PartialEq, Eq, Structural)]
pub struct RawStorageBufferBinding {
    pub buffer: u64,
    pub cycle: bool,
}

/// A read-write storage texture binding for a compute pass.
#[derive(Clone, Copy, Debug, PartialEq, Eq, Structural)]
pub struct StorageTextureReadWriteBinding {
    pub texture: Texture,
    pub mip_level: u32,
    pub layer: u32,
    pub cycle: bool,
}

/// A read-write storage texture binding resolved to its native token.
#[derive(Clone, Copy, Debug, PartialEq, Eq, Structural)]
pub struct RawStorageTextureBinding {
    pub texture: u64,
    pub mip_level: u32,
    pub layer: u32,
    pub cycle: bool,
}

/// Creation description for a shader, over plain values: the bytecode, the
/// entry-point name, and the native enumeration values and counts that are
/// passed through to the native layer unread.
pub struct ShaderCreateInfo<'a> {
    /// The shader bytecode.
    pub code: &'a [u8],
    /// The entry point function name.
    pub entrypoint: &'a str,
    /// The native enumeration value for the bytecode format.
    pub format: u32,
    /// The native enumeration value for the pipeline stage.
    pub stage: u32,
    /// The number of samplers defined in the shader.
    pub num_samplers: u32,
    /// The number of storage textures defined in the shader.
    pub num_storage_textures: u32,
    /// The number of storage buffers defined in the shader.
    pub num_storage_buffers: u32,
    /// The number of uniform buffers defined in the shader.
    pub num_uniform_buffers: u32,
}

/// Creation description for a compute pipeline, over plain values.
pub struct ComputePipelineCreateInfo<'a> {
    /// The compute shader bytecode.
    pub code: &'a [u8],
    /// The entry point function name.
    pub entrypoint: &'a str,
    /// The native enumeration value for the bytecode format.
    pub format: u32,
    /// The number of samplers defined in the shader.
    pub num_samplers: u32,
    /// The number of readonly storage textures defined in the shader.
    pub num_readonly_storage_textures: u32,
    /// The number of readonly storage buffers defined in the shader.
    pub num_readonly_storage_buffers: u32,
    /// The number of read-write storage textures defined in the shader.
    pub num_readwrite_storage_textures: u32,
    /// The number of read-write storage buffers defined in the shader.
    pub num_readwrite_storage_buffers: u32,
    /// The number of uniform buffers defined in the shader.
    pub num_uniform_buffers: u32,
    /// The number of threads in the X dimension of the workgroup.
    pub threadcount_x: u32,
    /// The number of threads in the Y dimension of the workgroup.
    pub threadcount_y: u32,
    /// The number of threads in the Z dimension of the workgroup.
    pub threadcount_z: u32,
}

impl Device {
    /// Wrap a native command buffer the caller acquired, counting it as in
    /// flight.  `raw` is the native acquisition result (`0` for failure).
    pub fn acquire_command_buffer(&mut self, raw: u64) -> (r: Result<
        crate::command::CommandBuffer,
        GpuError,
    >)
        requires
            old(self).wf(),
            old(self).in_flight < u32::MAX,
        ensures
            final(self).wf(),
            raw == 0 ==> r == Err::<crate::command::CommandBuffer, GpuError>(
                GpuError::NativeCallFailed(NativeCall::AcquireCommandBuffer),
            ) && *final(self) == *old(self),
            raw != 0 ==> (r matches Ok(cb) && cb.spec_raw() == raw && cb.pass_state()
                is Idle && !cb.swapchain_taken() && final(self).in_flight == old(self).in_flight + 1
                && *final(self) == (Device { in_flight: final(self).in_flight, ..*old(self) })),
    {
        if raw == 0 {
            return Err(GpuError::NativeCallFailed(NativeCall::AcquireCommandBuffer));
        }
        self.in_flight = self.in_flight + 1;
        Ok(crate::command::CommandBuffer::new_acquired(raw))
    }

    /// Finish one command buffer: clear the swapchain slot, count it out
    /// of flight, and, when it was the last one in flight, drain the
    /// pending-release list and hand the drained tokens back for release.
    pub(crate) fn retire_one(&mut self) -> (released: Vec<u64>)
        requires
            old(self).wf(),
            old(self).in_flight > 0,
        ensures
            final(self).wf(),
            final(self).in_flight == old(self).in_flight - 1,
            final(self).swapchain == (SwapchainState { raw: 0, width: 0, height: 0 }),
            old(self).in_flight == 1 ==> released@ == old(self).pending_staging@ && final(self).pending_staging@.len() == 0,
            old(self).in_flight > 1 ==> released@.len() == 0 && final(self).pending_staging@ == old(self).pending_staging@,
            *final(self) == (Device {
                in_flight: final(self).in_flight,
                swapchain: final(self).swapchain,
                pending_staging: final(self).pending_staging,
                ..*old(self)
            }),
    {
        self.swapchain = SwapchainState { raw: 0, width: 0, height: 0 };
        let prev = self.in_flight;
        self.in_flight = prev - 1;
        if prev == 1 {
            let mut drained: Vec<u64> = Vec::new();
            core::mem::swap(&mut drained, &mut self.pending_staging);
            drained
        } else {
            Vec::new()
        }
    }

}

/// Every native token a torn-down device still owned, in the order the
/// caller must release them: staging buffers (current first, then the
/// deferred ones), then the registries, then the window claim and the
/// device itself.
pub struct Teardown {
    pub staging: Vec<u64>,
    pub buffers: Vec<u64>,
    pub graphics_pipelines: Vec<u64>,
    pub compute_pipelines: Vec<u64>,
    pub shaders: Vec<u64>,
    pub samplers: Vec<u64>,
    pub textures: Vec<u64>,
    /// Whether a window claim must be released before the device.
    pub had_window: bool,
    /// The native device token to destroy last.
    pub device: u64,
}

impl Device {
    /// Tear the device down, consuming it: hand back every native token
    /// it still owns so that the caller can release them, in the order of
    /// the fields of [`Teardown`].
    pub fn teardown(self) -> (t: Teardown)
        requires
            self.wf(),
        ensures
            t.device == self.raw,
            t.had_window == self.has_window,
            t.staging@ == (if self.staging.raw != 0 {
                seq![self.staging.raw]
            } else {
                Seq::<u64>::empty()
            }) + self.pending_staging@,
            t.buffers@ == SlotMap::<BufferSlot>::occupied_entries(
                self.buffers@,
                self.buffers@.len() as int,
            ).map_values(|p: (int, BufferSlot)| p.1.raw),
            t.graphics_pipelines@ == SlotMap::<GraphicsPipelineSlot>::occupied_entries(
                self.graphics_pipelines@,
                self.graphics_pipelines@.len() as int,
            ).map_values(|p: (int, GraphicsPipelineSlot)| p.1.raw),
            t.compute_pipelines@ == SlotMap::<ComputePipelineSlot>::occupied_entries(
                self.compute_pipelines@,
                self.compute_pipelines@.len() as int,
            ).map_values(|p: (int, ComputePipelineSlot)| p.1.raw),
            t.shaders@ == SlotMap::<ShaderSlot>::occupied_entries(
                self.shaders@,
                self.shaders@.len() as int,
            ).map_values(|p: (int, ShaderSlot)| p.1.raw),
            t.samplers@ == SlotMap::<SamplerSlot>::occupied_entries(
                self.samplers@,
                self.samplers@.len() as int,
            ).map_values(|p: (int, SamplerSlot)| p.1.raw),
            t.textures@ == SlotMap::<TextureSlot>::occupied_entries(
                self.textures@,
                self.textures@.len() as int,
            ).map_values(|p: (int, TextureSlot)| p.1.raw),
    {
        let mut staging: Vec<u64> = Vec::new();
        if self.staging.raw != 0 {
            staging.push(self.staging.raw);
        }
        let np = self.pending_staging.len();
        let mut k: usize = 0;
        while k < np
            invariant
                np == self.pending_staging@.len(),
                k <= np,
                staging@ == (if self.staging.raw != 0 {
                    seq![self.staging.raw]
                } else {
                    Seq::<u64>::empty()
                }) + self.pending_staging@.subrange(0, k as int),
            decreases np - k,
        {
            staging.push(self.pending_staging[k]);
            proof {
                assert(self.pending_staging@.subrange(0, k + 1)
                    =~= self.pending_staging@.subrange(0, k as int).push(
                    self.pending_staging@[k as int],
                ));
            }
            k += 1;
        }
        proof {
            assert(self.pending_staging@.subrange(0, np as int) =~= self.pending_staging@);
        }
        let buffers = collect_buffer_tokens(&self.buffers);
        let graphics_pipelines = collect_graphics_pipeline_tokens(&self.graphics_pipelines);
        let compute_pipelines = collect_compute_pipeline_tokens(&self.compute_pipelines);
        let shaders = collect_shader_tokens(&self.shaders);
        let samplers = collect_sampler_tokens(&self.samplers);
        let textures = collect_texture_tokens(&self.textures);
        Teardown {
            staging,
            buffers,
            graphics_pipelines,
            compute_pipelines,
            shaders,
            samplers,
            textures,
            had_window: self.has_window,
            device: self.raw,
        }
    }
}

/// The native tokens of the occupied entries, in storage order.
fn collect_buffer_tokens(reg: &SlotMap<BufferSlot>) -> (r: Vec<u64>)
    requires
        reg.wf(),
    ensures
        r@ == SlotMap::<BufferSlot>::occupied_entries(reg@, reg@.len() as int).map_values(
            |p: (int, BufferSlot)| p.1.raw,
        ),
{
    let entries = reg.iter();
    let mut toks: Vec<u64> = Vec::new();
    let n = entries.len();
    let mut j: usize = 0;
    while j < n
        invariant
            n == entries@.len(),
            j <= n,
            entries@.map_values(|p: (i32, &BufferSlot)| (p.0 as int, *p.1))
                == SlotMap::<BufferSlot>::occupied_entries(reg@, reg@.len() as int),
            toks@.len() == j,
            forall|i: int|
                0 <= i < j ==> toks@[i] == SlotMap::<BufferSlot>::occupied_entries(
                    reg@,
                    reg@.len() as int,
                )[i].1.raw,
        decreases n - j,
    {
        let (_, s) = entries[j];
        proof {
            assert(entries@.map_values(|p: (i32, &BufferSlot)| (p.0 as int, *p.1))[j as int] == (
            entries@[j as int].0 as int,
            *entries@[j as int].1,
            ));
        }
        toks.push(s.raw);
        j += 1;
    }
    proof {
        assert(toks@ =~= SlotMap::<BufferSlot>::occupied_entries(reg@, reg@.len() as int).map_values(
            |p: (int, BufferSlot)| p.1.raw,
        ));
    }
    toks
}

/// The native tokens of the occupied entries, in storage order.
fn collect_graphics_pipeline_tokens(reg: &SlotMap<GraphicsPipelineSlot>) -> (r: Vec<u64>)
    requires
        reg.wf(),
    ensures
        r@ == SlotMap::<GraphicsPipelineSlot>::occupied_entries(reg@, reg@.len() as int).map_values(
            |p: (int, GraphicsPipelineSlot)| p.1.raw,
        ),
{
    let entries = reg.iter();
    let mut toks: Vec<u64> = Vec::new();
    let n = entries.len();
    let mut j: usize = 0;
    while j < n
        invariant
            n == entries@.len(),
            j <= n,
            entries@.map_values(|p: (i32, &GraphicsPipelineSlot)| (p.0 as int, *p.1))
                == SlotMap::<GraphicsPipelineSlot>::occupied_entries(reg@, reg@.len() as int),
            toks@.len() == j,
            forall|i: int|
                0 <= i < j ==> toks@[i] == SlotMap::<GraphicsPipelineSlot>::occupied_entries(
                    reg@,
                    reg@.len() as int,
                )[i].1.raw,
        decreases n - j,
    {
        let (_, s) = entries[j];
        proof {
            assert(entries@.map_values(|p: (i32, &GraphicsPipelineSlot)| (p.0 as int, *p.1))[j
                as int] == (entries@[j as int].0 as int, *entries@[j as int].1));
        }
        toks.push(s.raw);
        j += 1;
    }
    proof {
        assert(toks@ =~= SlotMap::<GraphicsPipelineSlot>::occupied_entries(
            reg@,
            reg@.len() as int,
        ).map_values(|p: (int, GraphicsPipelineSlot)| p.1.raw));
    }
    toks
}

/// The native tokens of the occupied entries, in storage order.
fn collect_compute_pipeline_tokens(reg: &SlotMap<ComputePipelineSlot>) -> (r: Vec<u64>)
    requires
        reg.wf(),
    ensures
        r@ == SlotMap::<ComputePipelineSlot>::occupied_entries(reg@, reg@.len() as int).map_values(
            |p: (int, ComputePipelineSlot)| p.1.raw,
        ),
{
    let entries = reg.iter();
    let mut toks: Vec<u64> = Vec::new();
    let n = entries.len();
    let mut j: usize = 0;
    while j < n
        invariant
            n == entries@.len(),
            j <= n,
            entries@.map_values(|p: (i32, &ComputePipelineSlot)| (p.0 as int, *p.1))
                == SlotMap::<ComputePipelineSlot>::occupied_entries(reg@, reg@.len() as int),
            toks@.len() == j,
            forall|i: int|
                0 <= i < j ==> toks@[i] == SlotMap::<ComputePipelineSlot>::occupied_entries(
                    reg@,
                    reg@.len() as int,
                )[i].1.raw,
        decreases n - j,
    {
        let (_, s) = entries[j];
        proof {
            assert(entries@.map_values(|p: (i32, &ComputePipelineSlot)| (p.0 as int, *p.1))[j
                as int] == (entries@[j as int].0 as int, *entries@[j as int].1));
        }
        toks.push(s.raw);
        j += 1;
    }
    proof {
        assert(toks@ =~= SlotMap::<ComputePipelineSlot>::occupied_entries(
            reg@,
            reg@.len() as int,
        ).map_values(|p: (int, ComputePipelineSlot)| p.1.raw));
    }
    toks
}

/// The native tokens of the occupied entries, in storage order.
fn collect_shader_tokens(reg: &SlotMap<ShaderSlot>) -> (r: Vec<u64>)
    requires
        reg.wf(),
    ensures
        r@ == SlotMap::<ShaderSlot>::occupied_entries(reg@, reg@.len() as int).map_values(
            |p: (int, ShaderSlot)| p.1.raw,
        ),
{
    let entries = reg.iter();
    let mut toks: Vec<u64> = Vec::new();
    let n = entries.len();
    let mut j: usize = 0;
    while j < n
        invariant
            n == entries@.len(),
            j <= n,
            entries@.map_values(|p: (i32, &ShaderSlot)| (p.0 as int, *p.1))
                == SlotMap::<ShaderSlot>::occupied_entries(reg@, reg@.len() as int),
            toks@.len() == j,
            forall|i: int|
                0 <= i < j ==> toks@[i] == SlotMap::<ShaderSlot>::occupied_entries(
                    reg@,
                    reg@.len() as int,
                )[i].1.raw,
        decreases n - j,
    {
        let (_, s) = entries[j];
        proof {
            assert(entries@.map_values(|p: (i32, &ShaderSlot)| (p.0 as int, *p.1))[j as int] == (
            entries@[j as int].0 as int,
            *entries@[j as int].1,
            ));
        }
        toks.push(s.raw);
        j += 1;
    }
    proof {
        assert(toks@ =~= SlotMap::<ShaderSlot>::occupied_entries(reg@, reg@.len() as int).map_values(
            |p: (int, ShaderSlot)| p.1.raw,
        ));
    }
    toks
}

/// The native tokens of the occupied entries, in storage order.
fn collect_sampler_tokens(reg: &SlotMap<SamplerSlot>) -> (r: Vec<u64>)
    requires
        reg.wf(),
    ensures
        r@ == SlotMap::<SamplerSlot>::occupied_entries(reg@, reg@.len() as int).map_values(
            |p: (int, SamplerSlot)| p.1.raw,
        ),
{
    let entries = reg.iter();
    let mut toks: Vec<u64> = Vec::new();
    let n = entries.len();
    let mut j: usize = 0;
    while j < n
        invariant
            n == entries@.len(),
            j <= n,
            entries@.map_values(|p: (i32, &SamplerSlot)| (p.0 as int, *p.1))
                == SlotMap::<SamplerSlot>::occupied_entries(reg@, reg@.len() as int),
            toks@.len() == j,
            forall|i: int|
                0 <= i < j ==> toks@[i] == SlotMap::<SamplerSlot>::occupied_entries(
                    reg@,
                    reg@.len() as int,
                )[i].1.raw,
        decreases n - j,
    {
        let (_, s) = entries[j];
        proof {
            assert(entries@.map_values(|p: (i32, &SamplerSlot)| (p.0 as int, *p.1))[j as int] == (
            entries@[j as int].0 as int,
            *entries@[j as int].1,
            ));
        }
        toks.push(s.raw);
        j += 1;
    }
    proof {
        assert(toks@ =~= SlotMap::<SamplerSlot>::occupied_entries(
            reg@,
            reg@.len() as int,
        ).map_values(|p: (int, SamplerSlot)| p.1.raw));
    }
    toks
}

/// The native tokens of the occupied entries, in storage order.
fn collect_texture_tokens(reg: &SlotMap<TextureSlot>) -> (r: Vec<u64>)
    requires
        reg.wf(),
    ensures
        r@ == SlotMap::<TextureSlot>::occupied_entries(reg@, reg@.len() as int).map_values(
            |p: (int, TextureSlot)| p.1.raw,
        ),
{
    let entries = reg.iter();
    let mut toks: Vec<u64> = Vec::new();
    let n = entries.len();
    let mut j: usize = 0;
    while j < n
        invariant
            n == entries@.len(),
            j <= n,
            entries@.map_values(|p: (i32, &TextureSlot)| (p.0 as int, *p.1))
                == SlotMap::<TextureSlot>::occupied_entries(reg@, reg@.len() as int),
            toks@.len() == j,
            forall|i: int|
                0 <= i < j ==> toks@[i] == SlotMap::<TextureSlot>::occupied_entries(
                    reg@,
                    reg@.len() as int,
                )[i].1.raw,
        decreases n - j,
    {
        let (_, s) = entries[j];
        proof {
            assert(entries@.map_values(|p: (i32, &TextureSlot)| (p.0 as int, *p.1))[j as int] == (
            entries@[j as int].0 as int,
            *entries@[j as int].1,
            ));
        }
        toks.push(s.raw);
        j += 1;
    }
    proof {
        assert(toks@ =~= SlotMap::<TextureSlot>::occupied_entries(
            reg@,
            reg@.len() as int,
        ).map_values(|p: (int, TextureSlot)| p.1.raw));
    }
    toks
}

/// Installing a staging buffer never shrinks it: an installation is only
/// asked for when the requested size exceeds the current capacity (or no
/// staging buffer exists, whose capacity is zero), so the capacity grows
/// monotonically over any sequence of uploads.
pub proof fn lemma_staging_capacity_monotone(pre: Device, size: u32)
    requires
        pre.wf(),
        pre.staging_grow_needed(size),
    ensures
        size >= pre.staging.capacity,
{
}

/// Deferred staging buffers are reclaimed exactly at quiescence: finishing
/// a command buffer (by submission or cancellation) hands the whole
/// pending-release list back when and only when the counter reaches zero,
/// and otherwise leaves it untouched.
pub proof fn lemma_reclaim_exactly_at_quiescence(pre: Device, post: Device, released: Seq<u64>)
    requires
        pre.in_flight > 0,
        post.in_flight == pre.in_flight - 1,
        pre.in_flight == 1 ==> released == pre.pending_staging@ && post.pending_staging@.len()
            == 0,
        pre.in_flight > 1 ==> released.len() == 0 && post.pending_staging@
            == pre.pending_staging@,
    ensures
        post.in_flight == 0 ==> released == pre.pending_staging@ && post.pending_staging@.len()
            == 0,
        post.in_flight > 0 ==> released.len() == 0 && post.pending_staging@
            == pre.pending_staging@,
{
}

/// No byte of the string is zero, so it can be handed to the native layer
/// as a terminated C string.
pub open spec fn no_embedded_nul(bytes: Seq<u8>) -> bool {
    forall|i: int| 0 <= i < bytes.len() ==> bytes[i] != 0
}

/// Whether `s` is acceptable as a native entry-point name: it holds no
/// embedded terminator byte.
pub fn entrypoint_ok(s: &str) -> (r: bool)
    ensures
        r == no_embedded_nul(s.spec_bytes()),
{
    let bytes = s.as_bytes();
    let n = bytes.len();
    let mut j: usize = 0;
    while j < n
        invariant
            bytes@ == s.spec_bytes(),
            n == bytes@.len(),
            j <= n,
            forall|i: int| 0 <= i < j ==> bytes@[i] != 0,
        decreases n - j,
    {
        if bytes[j] == 0 {
            return false;
        }
        j += 1;
    }
    true
}

} // verus!
