use sdl3_gs::device::{
    BufferUploadStep, Device, ShaderCreateInfo, TextureRegion, TextureUploadStep, Texture,
    SWAPCHAIN_HANDLE,
};
use sdl3_gs::error::{GpuError, NativeCall};

fn test_device() -> Device {
    Device::new(1, false).expect("device")
}

#[test]
fn failed_native_device_creation_is_reported() {
    match Device::new(0, false) {
        Err(GpuError::NativeCallFailed(NativeCall::CreateDevice)) => {}
        _ => panic!("expected device creation failure"),
    }
}

#[test]
fn created_resources_get_fresh_handles_and_destroy_returns_tokens() {
    let mut d = test_device();
    let t = d.create_texture(101, 640, 480).expect("texture");
    let b = d.create_buffer(102, 64).expect("buffer");
    let s = d.create_sampler(103).expect("sampler");
    assert_eq!(t.0, 0);
    assert_eq!(b.0, 0);
    assert_eq!(s.0, 0);
    assert_eq!(d.texture_res(t), (640, 480));
    assert_eq!(d.buffer_raw(b), 102);
    assert_eq!(d.destroy_texture(t), 101);
    assert_eq!(d.destroy_buffer(b), 102);
    assert_eq!(d.destroy_sampler(s), 103);
    assert!(!d.texture_live(t));
    assert!(!d.buffer_live(b));
    assert!(!d.sampler_live(s));
}

#[test]
fn failed_native_creation_is_reported_per_kind() {
    let mut d = test_device();
    assert_eq!(
        d.create_texture(0, 1, 1),
        Err(GpuError::NativeCallFailed(NativeCall::CreateTexture))
    );
    assert_eq!(
        d.create_buffer(0, 4),
        Err(GpuError::NativeCallFailed(NativeCall::CreateBuffer))
    );
    assert_eq!(
        d.create_sampler(0),
        Err(GpuError::NativeCallFailed(NativeCall::CreateSampler))
    );
    assert_eq!(
        d.create_graphics_pipeline(0),
        Err(GpuError::NativeCallFailed(NativeCall::CreateGraphicsPipeline))
    );
}

#[test]
fn shader_entrypoint_with_embedded_terminator_is_rejected() {
    let mut d = test_device();
    let info = ShaderCreateInfo {
        code: &[1, 2, 3],
        entrypoint: "ma\0in",
        format: 0,
        stage: 0,
        num_samplers: 0,
        num_storage_textures: 0,
        num_storage_buffers: 0,
        num_uniform_buffers: 0,
    };
    assert_eq!(d.create_shader(&info, 7), Err(GpuError::InvalidArgument));
    let good = ShaderCreateInfo { entrypoint: "main", ..info };
    let h = d.create_shader(&good, 7).expect("shader");
    assert_eq!(d.shader_raw(h), 7);
    assert_eq!(
        d.create_shader(&good, 0),
        Err(GpuError::NativeCallFailed(NativeCall::CreateShader))
    );
}

#[test]
fn upload_range_check_rejects_before_anything_else() {
    let mut d = test_device();
    let b = d.create_buffer(102, 64).expect("buffer");
    let r = d.upload_to_buffer(None, b, 0, 100);
    assert_eq!(r, Err(GpuError::OutOfRange));
    // Nothing was staged or deferred for the rejected request: a staging
    // buffer would have been requested only after the check.
    assert_eq!(d.staging.raw, 0);
    assert_eq!(d.staging.capacity, 0);
    assert!(d.pending_staging.is_empty());
    // Boundary: exactly filling the buffer passes the check.
    assert!(matches!(d.upload_to_buffer(None, b, 0, 64), Ok(BufferUploadStep::GrowStaging(64))));
    assert_eq!(d.upload_to_buffer(None, b, 1, 64), Err(GpuError::OutOfRange));
}

#[test]
fn upload_range_check_is_exact_at_the_integer_limits() {
    let mut d = test_device();
    let b = d.create_buffer(102, u32::MAX).expect("buffer");
    // offset + len overflows u32 but the check is mathematical.
    assert_eq!(d.upload_to_buffer(None, b, u32::MAX, u32::MAX), Err(GpuError::OutOfRange));
    assert_eq!(d.upload_to_buffer(None, b, 1, u32::MAX), Err(GpuError::OutOfRange));
    assert!(matches!(
        d.upload_to_buffer(None, b, 0, u32::MAX),
        Ok(BufferUploadStep::GrowStaging(_))
    ));
}

#[test]
fn staging_grows_monotonically_and_defers_the_superseded_buffer() {
    let mut d = test_device();
    let b = d.create_buffer(102, 128).expect("buffer");

    // First upload of 16 bytes: a staging buffer must be created.
    assert_eq!(d.staging_request(16), Some(16));
    match d.upload_to_buffer(None, b, 0, 16) {
        Ok(BufferUploadStep::GrowStaging(16)) => {}
        other => panic!("expected growth request, got {:?}", other),
    }
    d.install_staging(16, 901).expect("staging");
    match d.upload_to_buffer(None, b, 0, 16) {
        Ok(BufferUploadStep::Copy(op)) => {
            assert_eq!(op.staging, 901);
            assert_eq!(op.dst, 102);
            assert_eq!(op.dst_offset, 0);
            assert_eq!(op.size, 16);
            assert_eq!(op.pass, None);
        }
        other => panic!("expected copy, got {:?}", other),
    }

    // A smaller upload reuses the 16-byte buffer: no growth.
    assert_eq!(d.staging_request(4), None);
    match d.upload_to_buffer(None, b, 8, 4) {
        Ok(BufferUploadStep::Copy(op)) => assert_eq!(op.staging, 901),
        other => panic!("expected copy, got {:?}", other),
    }
    assert!(d.pending_staging.is_empty());

    // A larger upload grows once: the old buffer is deferred, not freed.
    match d.upload_to_buffer(None, b, 0, 64) {
        Ok(BufferUploadStep::GrowStaging(64)) => {}
        other => panic!("expected growth request, got {:?}", other),
    }
    d.install_staging(64, 902).expect("staging");
    assert_eq!(d.staging.capacity, 64);
    assert_eq!(d.pending_staging, vec![901]);
    match d.upload_to_buffer(None, b, 0, 64) {
        Ok(BufferUploadStep::Copy(op)) => assert_eq!(op.staging, 902),
        other => panic!("expected copy, got {:?}", other),
    }
}

#[test]
fn failed_staging_creation_leaves_no_staging_buffer() {
    let mut d = test_device();
    d.install_staging(16, 901).expect("staging");
    assert_eq!(
        d.install_staging(32, 0),
        Err(GpuError::NativeCallFailed(NativeCall::CreateTransferBuffer))
    );
    assert_eq!(d.staging.raw, 0);
    assert_eq!(d.staging.capacity, 0);
    // The superseded buffer was still deferred.
    assert_eq!(d.pending_staging, vec![901]);
}

#[test]
fn upload_to_texture_uses_the_same_staging_discipline() {
    let mut d = test_device();
    let t = d.create_texture(101, 4, 4).expect("texture");
    let region = TextureRegion::full(t, &d);
    assert_eq!((region.w, region.h, region.d), (4, 4, 1));
    match d.upload_to_texture(None, &region, 64) {
        TextureUploadStep::GrowStaging(64) => {}
        other => panic!("expected growth request, got {:?}", other),
    }
    d.install_staging(64, 901).expect("staging");
    match d.upload_to_texture(None, &region, 64) {
        TextureUploadStep::Copy(op) => {
            assert_eq!(op.staging, 901);
            assert_eq!(op.region.texture, 101);
            assert_eq!(op.size, 64);
        }
        other => panic!("expected copy, got {:?}", other),
    }
}

#[test]
fn download_checks_the_range_and_zero_means_rest() {
    let mut d = test_device();
    let b = d.create_buffer(102, 64).expect("buffer");
    let op = d.download_from_buffer(b, 16, 0).expect("download");
    assert_eq!((op.src, op.offset, op.size), (102, 16, 48));
    let op = d.download_from_buffer(b, 0, 64).expect("download");
    assert_eq!(op.size, 64);
    assert_eq!(d.download_from_buffer(b, 60, 8), Err(GpuError::OutOfRange));
    assert_eq!(d.download_from_buffer(b, 65, 0), Err(GpuError::OutOfRange));
}

#[test]
fn swapchain_sentinel_is_not_a_registry_index() {
    let d = test_device();
    let sentinel = Texture::swapchain();
    assert_eq!(sentinel.0, SWAPCHAIN_HANDLE);
    assert!(sentinel.0 < 0);
    // With no swapchain texture held, the sentinel does not resolve.
    assert!(!d.texture_live(sentinel));
}

#[test]
fn teardown_returns_every_owned_token_in_release_order() {
    let mut d = test_device();
    let t1 = d.create_texture(101, 1, 1).expect("texture");
    let _t2 = d.create_texture(111, 2, 2).expect("texture");
    d.destroy_texture(t1);
    let _b = d.create_buffer(102, 4).expect("buffer");
    let _s = d.create_sampler(103).expect("sampler");
    d.install_staging(16, 901).expect("staging");
    d.install_staging(32, 902).expect("staging");
    let td = d.teardown();
    assert_eq!(td.staging, vec![902, 901]);
    assert_eq!(td.buffers, vec![102]);
    assert_eq!(td.graphics_pipelines, Vec::<u64>::new());
    assert_eq!(td.compute_pipelines, Vec::<u64>::new());
    assert_eq!(td.shaders, Vec::<u64>::new());
    assert_eq!(td.samplers, vec![103]);
    assert_eq!(td.textures, vec![111]);
    assert!(!td.had_window);
    assert_eq!(td.device, 1);
}
