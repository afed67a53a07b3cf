use gpui_windows::texture::{
    check_acquire, check_adapter, check_target, descriptor, needs_keyed_mutex, plan_surface,
    should_log_drop, completion_poll, CompletionPoll, SurfacePlan, COMPLETION_TIMEOUT_MS,
    validate_descriptor, ExternalTexture, ExternalTextureSync, TextureDescriptor, TextureError,
    BIND_RENDER_TARGET, BIND_SHADER_RESOURCE, FORMAT_B8G8R8A8_UNORM, FORMAT_R8G8B8A8_UNORM,
    MISC_SHARED, MISC_SHARED_KEYEDMUTEX, MISC_SHARED_NTHANDLE, USAGE_DEFAULT,
};
use std::sync::Arc;

#[test]
fn reject_incompatible_texture_descriptors() {
    let mut desc = TextureDescriptor {
        width: 64,
        height: 32,
        mip_levels: 1,
        array_size: 1,
        format: FORMAT_B8G8R8A8_UNORM,
        sample_count: 1,
        sample_quality: 0,
        ..Default::default()
    };
    assert!(validate_descriptor(&desc, (64, 32)).is_ok());
    assert!(validate_descriptor(&desc, (63, 32)).is_err());
    desc.format = FORMAT_R8G8B8A8_UNORM;
    assert!(validate_descriptor(&desc, (64, 32)).is_err());
    desc.format = FORMAT_B8G8R8A8_UNORM;
    desc.sample_count = 4;
    assert!(validate_descriptor(&desc, (64, 32)).is_err());
}

#[test]
fn descriptor_errors_name_the_first_failed_check() {
    let desc = descriptor(8, 8, false);
    assert_eq!(validate_descriptor(&desc, (8, 8)), Ok(()));
    assert_eq!(validate_descriptor(&desc, (8, 9)), Err(TextureError::SizeMismatch));
    let empty = descriptor(0, 0, false);
    assert_eq!(validate_descriptor(&empty, (0, 0)), Err(TextureError::SizeMismatch));
    let mut layered = descriptor(8, 8, true);
    layered.array_size = 2;
    assert_eq!(validate_descriptor(&layered, (8, 8)), Err(TextureError::UnsupportedFormat));
    layered.array_size = 1;
    layered.mip_levels = 3;
    assert_eq!(validate_descriptor(&layered, (8, 8)), Err(TextureError::UnsupportedFormat));
    layered.mip_levels = 1;
    layered.sample_quality = 1;
    assert_eq!(validate_descriptor(&layered, (8, 8)), Err(TextureError::UnsupportedFormat));
    let mut wrong_size_and_format = descriptor(8, 8, false);
    wrong_size_and_format.format = FORMAT_R8G8B8A8_UNORM;
    assert_eq!(
        validate_descriptor(&wrong_size_and_format, (4, 4)),
        Err(TextureError::SizeMismatch)
    );
}

#[test]
fn test_descriptors_are_shared_only_on_request() {
    let shared = descriptor(8, 8, true);
    assert_eq!(shared.width, 8);
    assert_eq!(shared.height, 8);
    assert_eq!(shared.mip_levels, 1);
    assert_eq!(shared.array_size, 1);
    assert_eq!(shared.format, FORMAT_B8G8R8A8_UNORM);
    assert_eq!(shared.format, 87);
    assert_eq!((shared.sample_count, shared.sample_quality), (1, 0));
    assert_eq!(shared.usage, USAGE_DEFAULT);
    assert_eq!(shared.bind_flags, BIND_RENDER_TARGET | BIND_SHADER_RESOURCE);
    assert_eq!(shared.bind_flags, 40);
    assert_eq!(shared.misc_flags, MISC_SHARED_NTHANDLE | MISC_SHARED_KEYEDMUTEX);
    assert_eq!(shared.misc_flags, 2304);
    assert_eq!(shared.cpu_access_flags, 0);
    let target = descriptor(16, 16, false);
    assert_eq!(target.misc_flags, 0);
    assert_eq!((target.width, target.height), (16, 16));
}

#[test]
fn render_target_must_match_format_and_be_single_sample() {
    let source = descriptor(8, 8, true);
    let target = descriptor(16, 16, false);
    assert_eq!(check_target(&source, &target), Ok(()));
    let mut multisampled = target;
    multisampled.sample_count = 4;
    assert_eq!(check_target(&source, &multisampled), Err(TextureError::TargetMismatch));
    let mut other_format = target;
    other_format.format = FORMAT_R8G8B8A8_UNORM;
    assert_eq!(check_target(&source, &other_format), Err(TextureError::TargetMismatch));
}

#[test]
fn textures_from_another_adapter_are_refused() {
    assert_eq!(check_adapter((7, -1), (7, -1)), Ok(()));
    assert_eq!(check_adapter((7, -1), (7, 0)), Err(TextureError::AdapterMismatch));
    assert_eq!(check_adapter((8, -1), (7, -1)), Err(TextureError::AdapterMismatch));
}

#[test]
fn keyed_texture_is_never_read_without_its_mutex() {
    let keyed = descriptor(8, 8, true);
    let plain = TextureDescriptor { misc_flags: MISC_SHARED | MISC_SHARED_NTHANDLE, ..keyed };
    assert_eq!(
        needs_keyed_mutex(ExternalTextureSync::ProducerComplete, &keyed),
        Err(TextureError::KeyedTextureNeedsMutex)
    );
    assert_eq!(needs_keyed_mutex(ExternalTextureSync::ProducerComplete, &plain), Ok(false));
    assert_eq!(needs_keyed_mutex(ExternalTextureSync::KeyedMutex, &keyed), Ok(true));
    assert_eq!(needs_keyed_mutex(ExternalTextureSync::KeyedMutex, &plain), Ok(true));
}

#[test]
fn keyed_timeout_is_not_an_acquired_key() {
    assert_eq!(check_acquire(0), Ok(()));
    assert_eq!(check_acquire(0x102), Err(TextureError::AcquireFailed(0x102)));
    assert_eq!(check_acquire(0x80), Err(TextureError::AcquireFailed(0x80)));
    assert_eq!(check_acquire(-2147467259), Err(TextureError::AcquireFailed(-2147467259)));
}

#[test]
fn dropped_surfaces_are_logged_sparsely() {
    let logged: Vec<u64> = (1..=1000).filter(|n| should_log_drop(*n)).collect();
    assert_eq!(logged, vec![1, 2, 3, 300, 600, 900]);
    assert!(should_log_drop(0));
}

#[test]
fn clones_share_the_handle_and_its_description() {
    let owner = ExternalTexture::new(41u64, (5, -3), (320, 200), ExternalTextureSync::KeyedMutex);
    let clone = owner.clone();
    assert!(Arc::ptr_eq(owner.handle(), clone.handle()));
    assert_eq!(Arc::strong_count(owner.handle()), 2);
    assert_eq!(**clone.handle(), 41);
    assert_eq!(clone.adapter_luid(), (5, -3));
    assert_eq!(clone.size(), (320, 200));
    assert_eq!(clone.synchronization(), ExternalTextureSync::KeyedMutex);
    let weak = Arc::downgrade(owner.handle());
    drop(owner);
    assert_eq!(weak.strong_count(), 1);
    drop(clone);
    assert_eq!(weak.strong_count(), 0);
}

#[test]
fn surfaces_are_refused_skipped_or_copied_in_order() {
    let keyed = descriptor(8, 8, true);
    let target = descriptor(16, 16, false);
    let sync = ExternalTextureSync::KeyedMutex;
    assert_eq!(plan_surface(&keyed, (8, 8), &target, sync, true), Ok(SurfacePlan::Copy { keyed: true }));
    assert_eq!(plan_surface(&keyed, (8, 8), &target, sync, false), Ok(SurfacePlan::Skip));
    assert_eq!(
        plan_surface(&keyed, (8, 9), &target, sync, false),
        Err(TextureError::SizeMismatch)
    );
    let mut multisampled = target;
    multisampled.sample_count = 4;
    assert_eq!(
        plan_surface(&keyed, (8, 8), &multisampled, sync, true),
        Err(TextureError::TargetMismatch)
    );
    let complete = ExternalTextureSync::ProducerComplete;
    assert_eq!(
        plan_surface(&keyed, (8, 8), &target, complete, true),
        Err(TextureError::KeyedTextureNeedsMutex)
    );
    assert_eq!(plan_surface(&keyed, (8, 8), &target, complete, false), Ok(SurfacePlan::Skip));
    let plain = descriptor(8, 8, false);
    assert_eq!(
        plan_surface(&plain, (8, 8), &target, complete, true),
        Ok(SurfacePlan::Copy { keyed: false })
    );
}

#[test]
fn producer_polls_completion_for_five_seconds() {
    assert_eq!(COMPLETION_TIMEOUT_MS, 5000);
    assert_eq!(completion_poll(1, 0), CompletionPoll::Done);
    assert_eq!(completion_poll(1, 9000), CompletionPoll::Done);
    assert_eq!(completion_poll(0, 4999), CompletionPoll::Wait);
    assert_eq!(completion_poll(0, 5000), CompletionPoll::TimedOut);
}
