use sdl3_gs::command::{CommandBuffer, PassState};
use sdl3_gs::device::{
    ColorTargetInfo, ComputePipelineCreateInfo, Device, GPUBufferBinding,
    StorageBufferReadWriteBinding, StorageTextureReadWriteBinding, TextureSamplerBinding,
    BlitInfo, BlitRegion, LOAD_OP_DONT_CARE,
};
use sdl3_gs::error::{GpuError, NativeCall};

fn windowed_device() -> Device {
    Device::new(1, true).expect("device")
}

fn acquire(d: &mut Device, raw: u64) -> CommandBuffer {
    d.acquire_command_buffer(raw).expect("command buffer")
}

#[test]
fn acquiring_command_buffers_counts_them_in_flight() {
    let mut d = windowed_device();
    assert_eq!(d.in_flight, 0);
    let c1 = acquire(&mut d, 11);
    assert_eq!(d.in_flight, 1);
    let c2 = acquire(&mut d, 12);
    assert_eq!(d.in_flight, 2);
    assert_eq!(c1.raw(), 11);
    assert_eq!(c2.raw(), 12);
    c1.submit(&mut d, true).0.expect("submit");
    c2.submit(&mut d, true).0.expect("submit");
    assert_eq!(d.in_flight, 0);
}

#[test]
fn failed_native_acquisition_is_reported_and_not_counted() {
    let mut d = windowed_device();
    match d.acquire_command_buffer(0) {
        Err(GpuError::NativeCallFailed(NativeCall::AcquireCommandBuffer)) => {}
        _ => panic!("expected acquisition failure"),
    }
    assert_eq!(d.in_flight, 0);
}

#[test]
fn deferred_staging_buffers_drain_only_at_quiescence() {
    let mut d = windowed_device();
    let c1 = acquire(&mut d, 11);
    let c2 = acquire(&mut d, 12);
    assert_eq!(d.in_flight, 2);

    // Growing the staging buffer while work is in flight defers the old one.
    d.install_staging(16, 901).expect("staging");
    d.install_staging(64, 902).expect("staging");
    assert_eq!(d.pending_staging, vec![901]);

    // Finishing the first buffer must not release anything yet.
    let (r1, released1) = c1.submit(&mut d, true);
    r1.expect("submit");
    assert_eq!(d.in_flight, 1);
    assert!(released1.is_empty());
    assert_eq!(d.pending_staging, vec![901]);

    // Finishing the last buffer drains the pending list.
    let (r2, released2) = c2.submit(&mut d, true);
    r2.expect("submit");
    assert_eq!(d.in_flight, 0);
    assert_eq!(released2, vec![901]);
    assert!(d.pending_staging.is_empty());
}

#[test]
fn cancelling_decrements_once_and_clears_the_swapchain_slot() {
    let mut d = windowed_device();
    let mut c = acquire(&mut d, 11);
    let got = c.acquire_swapchain_texture(&mut d, true, 501, 640, 480).expect("swapchain");
    assert!(got.is_some());
    assert_eq!(d.swapchain.raw, 501);
    let released = c.cancel(&mut d);
    assert_eq!(d.in_flight, 0);
    assert!(released.is_empty());
    assert_eq!(d.swapchain.raw, 0);
}

#[test]
fn swapchain_acquisition_needs_a_window_and_may_yield_nothing() {
    let mut no_window = Device::new(1, false).expect("device");
    let mut c = acquire(&mut no_window, 11);
    assert_eq!(
        c.acquire_swapchain_texture(&mut no_window, true, 501, 640, 480),
        Err(GpuError::MissingWindow)
    );
    c.cancel(&mut no_window);

    let mut d = windowed_device();
    let mut c = acquire(&mut d, 11);
    // A minimized window yields no image: not an error, skip the frame.
    assert_eq!(c.acquire_swapchain_texture(&mut d, true, 0, 0, 0), Ok(None));
    c.cancel(&mut d);

    let mut c = acquire(&mut d, 12);
    assert_eq!(
        c.acquire_swapchain_texture(&mut d, false, 0, 0, 0),
        Err(GpuError::NativeCallFailed(NativeCall::AcquireSwapchainTexture))
    );
    c.cancel(&mut d);
}

#[test]
fn swapchain_sentinel_resolves_while_held() {
    let mut d = windowed_device();
    let mut c = acquire(&mut d, 11);
    let t = c.acquire_swapchain_texture(&mut d, true, 501, 640, 480).expect("swapchain").unwrap();
    assert!(d.texture_live(t));
    assert_eq!(d.texture_raw(t), 501);
    assert_eq!(d.texture_res(t), (640, 480));
    c.cancel(&mut d);
    assert!(!d.texture_live(t));
}

#[test]
fn the_single_pass_slot_is_held_from_begin_to_end() {
    let mut d = windowed_device();
    let mut c = acquire(&mut d, 11);
    assert!(!c.has_open_pass());
    c.begin_copy_pass();
    // From here until the pass ends, beginning another pass is a contract
    // violation (the guard callers must test reports the slot as held).
    assert!(c.has_open_pass());
    let p = c.copy_pass_begun(21).expect("copy pass");
    assert!(c.has_open_pass());
    assert_eq!(p.raw(), 21);
    let ended = c.end_copy_pass(p);
    assert_eq!(ended, 21);
    assert!(!c.has_open_pass());
    c.submit(&mut d, true).0.expect("submit");
}

#[test]
fn a_failed_native_begin_releases_the_pass_slot() {
    let mut d = windowed_device();
    let mut c = acquire(&mut d, 11);
    c.begin_copy_pass();
    assert_eq!(
        c.copy_pass_begun(0),
        Err(GpuError::NativeCallFailed(NativeCall::BeginCopyPass))
    );
    assert!(!c.has_open_pass());
    c.cancel(&mut d);
}

#[test]
fn render_pass_targets_are_resolved_before_the_native_begin() {
    let mut d = windowed_device();
    let t = d.create_texture(101, 640, 480).expect("texture");
    let mut c = acquire(&mut d, 11);
    let targets = vec![ColorTargetInfo::new(t)];
    let setup = c.begin_render_pass(&d, &targets, None);
    assert_eq!(setup.color_targets.len(), 1);
    assert_eq!(setup.color_targets[0].texture, 101);
    assert_eq!(setup.color_targets[0].resolve_texture, 0);
    assert!(setup.depth_stencil.is_none());
    let p = c.render_pass_begun(31).expect("render pass");
    assert_eq!(p.raw(), 31);

    let b = d.create_buffer(102, 64).expect("buffer");
    let bindings = vec![GPUBufferBinding { buffer: b, offset: 16 }];
    let raw = p.bind_vertex_buffers(&d, &bindings);
    assert_eq!(raw.len(), 1);
    assert_eq!((raw[0].buffer, raw[0].offset), (102, 16));
    let idx = p.bind_index_buffer(&d, &GPUBufferBinding { buffer: b, offset: 0 });
    assert_eq!(idx.buffer, 102);

    let s = d.create_sampler(103).expect("sampler");
    let pairs = vec![TextureSamplerBinding { texture: t, sampler: s }];
    let raw_pairs = p.bind_fragment_samplers(&d, &pairs);
    assert_eq!((raw_pairs[0].texture, raw_pairs[0].sampler), (101, 103));

    let gp = d.create_graphics_pipeline(104).expect("pipeline");
    assert_eq!(p.bind_graphics_pipeline(&d, gp), 104);

    c.end_render_pass(p);
    c.submit(&mut d, true).0.expect("submit");
}

#[test]
fn compute_pass_bindings_are_resolved_before_the_native_begin() {
    let mut d = windowed_device();
    let t = d.create_texture(101, 8, 8).expect("texture");
    let b = d.create_buffer(102, 64).expect("buffer");
    let mut c = acquire(&mut d, 11);
    let tex_bindings = vec![StorageTextureReadWriteBinding {
        texture: t,
        mip_level: 0,
        layer: 0,
        cycle: false,
    }];
    let buf_bindings = vec![StorageBufferReadWriteBinding { buffer: b, cycle: true }];
    let setup = c.begin_compute_pass(&d, &tex_bindings, &buf_bindings);
    assert_eq!(setup.storage_textures[0].texture, 101);
    assert_eq!(setup.storage_buffers[0].buffer, 102);
    assert!(setup.storage_buffers[0].cycle);
    let p = c.compute_pass_begun(41).expect("compute pass");

    let cp_info = ComputePipelineCreateInfo {
        code: &[1, 2, 3],
        entrypoint: "main",
        format: 0,
        num_samplers: 0,
        num_readonly_storage_textures: 0,
        num_readonly_storage_buffers: 0,
        num_readwrite_storage_textures: 1,
        num_readwrite_storage_buffers: 1,
        num_uniform_buffers: 0,
        threadcount_x: 8,
        threadcount_y: 8,
        threadcount_z: 1,
    };
    let cp = d.create_compute_pipeline(&cp_info, 105).expect("compute pipeline");
    assert_eq!(p.bind_compute_pipeline(&d, cp), 105);
    assert_eq!(p.bind_storage_textures(&d, &vec![t]), vec![101]);
    assert_eq!(p.bind_storage_buffers(&d, &vec![b]), vec![102]);
    let arg = p.dispatch_indirect(&d, b, 32);
    assert_eq!((arg.buffer, arg.offset), (102, 32));

    c.end_compute_pass(p);
    c.submit(&mut d, true).0.expect("submit");
}

#[test]
fn blit_is_resolved_only_while_no_pass_is_open() {
    let mut d = windowed_device();
    let src = d.create_texture(101, 4, 4).expect("texture");
    let dst = d.create_texture(111, 8, 8).expect("texture");
    let c = acquire(&mut d, 11);
    let info = BlitInfo::new(BlitRegion::full(src, 4, 4), BlitRegion::full(dst, 8, 8));
    assert_eq!(info.load_op, LOAD_OP_DONT_CARE);
    let raw = c.blit_texture(&d, &info);
    assert_eq!(raw.source.texture, 101);
    assert_eq!(raw.destination.texture, 111);
    assert_eq!((raw.source.w, raw.source.h), (4, 4));
    c.submit(&mut d, true).0.expect("submit");
}

#[test]
fn a_failed_native_submit_still_finishes_the_buffer() {
    let mut d = windowed_device();
    d.install_staging(16, 901).expect("staging");
    d.install_staging(64, 902).expect("staging");
    let c = acquire(&mut d, 11);
    let (r, released) = c.submit(&mut d, false);
    assert_eq!(r, Err(GpuError::NativeCallFailed(NativeCall::Submit)));
    // The buffer is consumed either way: the count dropped and the
    // pending staging buffers were still handed back.
    assert_eq!(d.in_flight, 0);
    assert_eq!(released, vec![901]);
}

#[test]
fn pass_states_compare() {
    assert_eq!(PassState::Idle, PassState::Idle);
    assert_ne!(PassState::Idle, PassState::Open);
}
