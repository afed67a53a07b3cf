//! Owned shared textures that the renderer copies into its target, and the
//! checks a texture passes before any of its pixels are read.

use vstd::prelude::*;
use std::sync::Arc;

verus! {

/// `DXGI_FORMAT_B8G8R8A8_UNORM`, the only format an external texture may have.
pub const FORMAT_B8G8R8A8_UNORM: i32 = 87;

/// `DXGI_FORMAT_R8G8B8A8_UNORM`.
pub const FORMAT_R8G8B8A8_UNORM: i32 = 28;

/// `D3D11_USAGE_DEFAULT`.
pub const USAGE_DEFAULT: i32 = 0;

/// `D3D11_BIND_SHADER_RESOURCE`.
pub const BIND_SHADER_RESOURCE: u32 = 8;

/// `D3D11_BIND_RENDER_TARGET`.
pub const BIND_RENDER_TARGET: u32 = 32;

/// `D3D11_RESOURCE_MISC_SHARED`.
pub const MISC_SHARED: u32 = 2;

/// `D3D11_RESOURCE_MISC_SHARED_KEYEDMUTEX`.
pub const MISC_SHARED_KEYEDMUTEX: u32 = 256;

/// `D3D11_RESOURCE_MISC_SHARED_NTHANDLE`.
pub const MISC_SHARED_NTHANDLE: u32 = 2048;

/// The one result of `AcquireSync` that means the key is held (`S_OK`).
pub const ACQUIRED: i32 = 0;

/// Every how many dropped surfaces one is logged, after the first three.
pub const DROP_LOG_EVERY: u64 = 300;

/// Synchronization required before the renderer reads a shared texture.
#[derive(Clone, Copy, Debug, PartialEq, Eq, Structural)]
pub enum ExternalTextureSync {
    /// The producer observed GPU completion and will never modify this texture.
    ProducerComplete,
    /// Both devices acquire key 0 before access and release key 0 afterwards.
    KeyedMutex,
}

/// Why a surface is not drawn.
#[derive(Clone, Copy, Debug, PartialEq, Eq, Structural)]
pub enum TextureError {
    /// The texture was made on another adapter than the renderer's.
    AdapterMismatch,
    /// The texture's size is zero or differs from the declared size.
    SizeMismatch,
    /// The texture is not single-mip, single-layer, single-sample BGRA8 UNORM.
    UnsupportedFormat,
    /// The render target's format or sample count differs from the texture's.
    TargetMismatch,
    /// A keyed-mutex texture was declared as needing no synchronization.
    KeyedTextureNeedsMutex,
    /// `AcquireSync` returned this instead of `S_OK`.
    AcquireFailed(i32),
    /// The texture cache has no device to open textures with.
    DeviceMissing,
    /// The texture cache has no entry for a texture it just opened.
    EntryMissing,
}

/// What an [`ExternalTexture`] holds.
pub struct ExternalTextureView<H> {
    pub handle: H,
    pub adapter_luid: (u32, i32),
    pub size: (u32, u32),
    pub synchronization: ExternalTextureSync,
}

/// A client-owned shared texture, retained by every scene that uses it.
///
/// The handle is shared: clones keep the same handle alive, and the last
/// one to drop closes it. The adapter LUID is `(LowPart, HighPart)` and the
/// size is in device pixels.
pub struct ExternalTexture<H> {
    handle: Arc<H>,
    adapter_luid: (u32, i32),
    size: (u32, u32),
    synchronization: ExternalTextureSync,
}

impl<H> View for ExternalTexture<H> {
    type V = ExternalTextureView<H>;

    closed spec fn view(&self) -> ExternalTextureView<H> {
        ExternalTextureView {
            handle: *self.handle,
            adapter_luid: self.adapter_luid,
            size: self.size,
            synchronization: self.synchronization,
        }
    }
}

/// Another owner of the same shared allocation, by `Arc::clone`. The
/// contract claims only what its documentation says: the new `Arc` points
/// to the same value. That it is the same allocation, and the count of
/// owners, are left unsaid.
#[verifier::external_body]
fn share<H>(handle: &Arc<H>) -> (shared: Arc<H>)
    ensures
        *shared == **handle,
{
    Arc::clone(handle)
}

impl<H> Clone for ExternalTexture<H> {
    /// Another owner of the same handle, with the same description.
    fn clone(&self) -> (c: Self)
        ensures
            c@ == self@,
    {
        ExternalTexture {
            handle: share(&self.handle),
            adapter_luid: self.adapter_luid,
            size: self.size,
            synchronization: self.synchronization,
        }
    }
}

impl<H> ExternalTexture<H> {
    /// Adopts an application-owned shared texture handle.
    ///
    /// The handle must refer to a single-mip, single-sample, single-layer,
    /// opaque BGRA8 UNORM texture on the given adapter, and its producer must
    /// obey `synchronization` for the lifetime of every clone.
    pub fn new(
        handle: H,
        adapter_luid: (u32, i32),
        size: (u32, u32),
        synchronization: ExternalTextureSync,
    ) -> (t: Self)
        ensures
            t@ == (ExternalTextureView { handle, adapter_luid, size, synchronization }),
    {
        ExternalTexture { handle: Arc::new(handle), adapter_luid, size, synchronization }
    }

    /// The shared owner of the handle.
    pub fn handle(&self) -> (h: &Arc<H>)
        ensures
            **h == self@.handle,
    {
        &self.handle
    }

    /// The originating adapter's `(LowPart, HighPart)` LUID.
    pub fn adapter_luid(&self) -> (luid: (u32, i32))
        ensures
            luid == self@.adapter_luid,
    {
        self.adapter_luid
    }

    /// Width and height in device pixels.
    pub fn size(&self) -> (size: (u32, u32))
        ensures
            size == self@.size,
    {
        self.size
    }

    /// The producer's synchronization contract.
    pub fn synchronization(&self) -> (sync: ExternalTextureSync)
        ensures
            sync == self@.synchronization,
    {
        self.synchronization
    }
}

/// What the renderer reads of a 2D texture's description.
#[derive(Clone, Copy, Debug, PartialEq, Eq, Structural)]
pub struct TextureDescriptor {
    pub width: u32,
    pub height: u32,
    pub mip_levels: u32,
    pub array_size: u32,
    pub format: i32,
    pub sample_count: u32,
    pub sample_quality: u32,
    pub usage: i32,
    pub bind_flags: u32,
    pub cpu_access_flags: u32,
    pub misc_flags: u32,
}

pub open spec fn zero_descriptor() -> TextureDescriptor {
    TextureDescriptor {
        width: 0,
        height: 0,
        mip_levels: 0,
        array_size: 0,
        format: 0,
        sample_count: 0,
        sample_quality: 0,
        usage: 0,
        bind_flags: 0,
        cpu_access_flags: 0,
        misc_flags: 0,
    }
}

impl Default for TextureDescriptor {
    /// Every field zero.
    fn default() -> (d: Self)
        ensures
            d == zero_descriptor(),
    {
        TextureDescriptor {
            width: 0,
            height: 0,
            mip_levels: 0,
            array_size: 0,
            format: 0,
            sample_count: 0,
            sample_quality: 0,
            usage: 0,
            bind_flags: 0,
            cpu_access_flags: 0,
            misc_flags: 0,
        }
    }
}

pub open spec fn descriptor_spec(width: u32, height: u32, shared: bool) -> TextureDescriptor {
    TextureDescriptor {
        width,
        height,
        mip_levels: 1,
        array_size: 1,
        format: FORMAT_B8G8R8A8_UNORM,
        sample_count: 1,
        sample_quality: 0,
        usage: USAGE_DEFAULT,
        bind_flags: BIND_RENDER_TARGET | BIND_SHADER_RESOURCE,
        cpu_access_flags: 0,
        misc_flags: if shared {
            MISC_SHARED_NTHANDLE | MISC_SHARED_KEYEDMUTEX
        } else {
            0
        },
    }
}

/// The description of a drawable BGRA8 texture of the given size; a shared
/// one is opened through an NT handle and guarded by a keyed mutex.
pub fn descriptor(width: u32, height: u32, shared: bool) -> (d: TextureDescriptor)
    ensures
        d == descriptor_spec(width, height, shared),
{
    TextureDescriptor {
        width,
        height,
        mip_levels: 1,
        array_size: 1,
        format: FORMAT_B8G8R8A8_UNORM,
        sample_count: 1,
        sample_quality: 0,
        usage: USAGE_DEFAULT,
        bind_flags: BIND_RENDER_TARGET | BIND_SHADER_RESOURCE,
        cpu_access_flags: 0,
        misc_flags: if shared {
            MISC_SHARED_NTHANDLE | MISC_SHARED_KEYEDMUTEX
        } else {
            0
        },
    }
}

/// The texture has the declared, nonzero size.
pub open spec fn has_size(desc: TextureDescriptor, size: (u32, u32)) -> bool {
    size.0 > 0 && size.1 > 0 && desc.width == size.0 && desc.height == size.1
}

/// The texture is single-mip, single-layer, single-sample BGRA8 UNORM.
pub open spec fn has_supported_layout(desc: TextureDescriptor) -> bool {
    &&& desc.format == FORMAT_B8G8R8A8_UNORM
    &&& desc.mip_levels == 1
    &&& desc.array_size == 1
    &&& desc.sample_count == 1
    &&& desc.sample_quality == 0
}

pub open spec fn validate_descriptor_spec(desc: TextureDescriptor, size: (u32, u32)) -> Result<
    (),
    TextureError,
> {
    if !has_size(desc, size) {
        Err(TextureError::SizeMismatch)
    } else if !has_supported_layout(desc) {
        Err(TextureError::UnsupportedFormat)
    } else {
        Ok(())
    }
}

/// Checks an opened texture against its owner's declared size and the one
/// layout the renderer copies.
pub fn validate_descriptor(desc: &TextureDescriptor, size: (u32, u32)) -> (r: Result<
    (),
    TextureError,
>)
    ensures
        r == validate_descriptor_spec(*desc, size),
{
    if !(size.0 > 0 && size.1 > 0 && desc.width == size.0 && desc.height == size.1) {
        return Err(TextureError::SizeMismatch);
    }
    if !(desc.format == FORMAT_B8G8R8A8_UNORM && desc.mip_levels == 1 && desc.array_size == 1
        && desc.sample_count == 1 && desc.sample_quality == 0) {
        return Err(TextureError::UnsupportedFormat);
    }
    Ok(())
}

pub open spec fn check_target_spec(source: TextureDescriptor, target: TextureDescriptor) -> Result<
    (),
    TextureError,
> {
    if target.format == source.format && target.sample_count == 1 {
        Ok(())
    } else {
        Err(TextureError::TargetMismatch)
    }
}

/// The render target must have the texture's format and a single sample.
pub fn check_target(source: &TextureDescriptor, target: &TextureDescriptor) -> (r: Result<
    (),
    TextureError,
>)
    ensures
        r == check_target_spec(*source, *target),
{
    if target.format == source.format && target.sample_count == 1 {
        Ok(())
    } else {
        Err(TextureError::TargetMismatch)
    }
}

pub open spec fn check_adapter_spec(owner: (u32, i32), renderer: (u32, i32)) -> Result<
    (),
    TextureError,
> {
    if owner == renderer {
        Ok(())
    } else {
        Err(TextureError::AdapterMismatch)
    }
}

/// The texture must come from the renderer's adapter.
pub fn check_adapter(owner: (u32, i32), renderer: (u32, i32)) -> (r: Result<(), TextureError>)
    ensures
        r == check_adapter_spec(owner, renderer),
{
    if owner.0 == renderer.0 && owner.1 == renderer.1 {
        Ok(())
    } else {
        Err(TextureError::AdapterMismatch)
    }
}

pub open spec fn is_keyed(desc: TextureDescriptor) -> bool {
    desc.misc_flags & MISC_SHARED_KEYEDMUTEX != 0
}

pub open spec fn needs_keyed_mutex_spec(
    sync: ExternalTextureSync,
    source: TextureDescriptor,
) -> Result<bool, TextureError> {
    match sync {
        ExternalTextureSync::ProducerComplete => if is_keyed(source) {
            Err(TextureError::KeyedTextureNeedsMutex)
        } else {
            Ok(false)
        },
        ExternalTextureSync::KeyedMutex => Ok(true),
    }
}

/// Whether the copy must hold key 0 of the texture's keyed mutex. A
/// texture that has a keyed mutex is refused unless its owner declared it.
pub fn needs_keyed_mutex(sync: ExternalTextureSync, source: &TextureDescriptor) -> (r: Result<
    bool,
    TextureError,
>)
    ensures
        r == needs_keyed_mutex_spec(sync, *source),
{
    match sync {
        ExternalTextureSync::ProducerComplete => {
            if source.misc_flags & MISC_SHARED_KEYEDMUTEX != 0 {
                Err(TextureError::KeyedTextureNeedsMutex)
            } else {
                Ok(false)
            }
        },
        ExternalTextureSync::KeyedMutex => Ok(true),
    }
}

pub open spec fn check_acquire_spec(result: i32) -> Result<(), TextureError> {
    if result == ACQUIRED {
        Ok(())
    } else {
        Err(TextureError::AcquireFailed(result))
    }
}

/// The raw result of `AcquireSync` must be exactly `S_OK`: the positive
/// `WAIT_TIMEOUT` and `WAIT_ABANDONED` do not hold the key.
pub fn check_acquire(result: i32) -> (r: Result<(), TextureError>)
    ensures
        r == check_acquire_spec(result),
{
    if result == ACQUIRED {
        Ok(())
    } else {
        Err(TextureError::AcquireFailed(result))
    }
}

pub open spec fn should_log_drop_spec(dropped: u64) -> bool {
    dropped <= 3 || dropped % DROP_LOG_EVERY == 0
}

/// Whether the `dropped`-th dropped surface is logged: the first three,
/// then one in every three hundred.
pub fn should_log_drop(dropped: u64) -> (r: bool)
    ensures
        r == should_log_drop_spec(dropped),
{
    dropped <= 3 || dropped % DROP_LOG_EVERY == 0
}

/// A drawable texture description passes validation against its own size
/// exactly when that size is nonzero; a shared one carries a keyed mutex.
pub proof fn lemma_descriptor_validates(width: u32, height: u32, shared: bool)
    ensures
        validate_descriptor_spec(descriptor_spec(width, height, shared), (width, height)) is Ok
            <==> (width > 0 && height > 0),
        is_keyed(descriptor_spec(width, height, shared)) == shared,
{
    assert((MISC_SHARED_NTHANDLE | MISC_SHARED_KEYEDMUTEX) & MISC_SHARED_KEYEDMUTEX != 0)
        by (bit_vector);
    assert(0u32 & MISC_SHARED_KEYEDMUTEX == 0) by (bit_vector);
}

/// A texture that passes validation has its declared, nonzero size and the
/// one layout that the renderer copies.
pub proof fn lemma_validated_texture_is_copyable(desc: TextureDescriptor, size: (u32, u32))
    requires
        validate_descriptor_spec(desc, size) is Ok,
    ensures
        desc.width == size.0 && desc.height == size.1,
        desc.width > 0 && desc.height > 0,
        desc.format == FORMAT_B8G8R8A8_UNORM,
        desc.mip_levels == 1 && desc.array_size == 1,
        desc.sample_count == 1 && desc.sample_quality == 0,
{
}

/// A texture that has a keyed mutex is never read without holding it:
/// either the copy acquires key 0, or the surface is refused.
pub proof fn lemma_keyed_texture_needs_its_mutex(sync: ExternalTextureSync, desc: TextureDescriptor)
    requires
        is_keyed(desc),
    ensures
        needs_keyed_mutex_spec(sync, desc) != Ok::<bool, TextureError>(false),
        needs_keyed_mutex_spec(sync, desc) is Ok ==> sync == ExternalTextureSync::KeyedMutex,
{
}

/// Only `S_OK` holds the key: the positive `WAIT_TIMEOUT` and
/// `WAIT_ABANDONED` results, like every failure code, do not.
pub proof fn lemma_only_s_ok_acquires(result: i32)
    ensures
        check_acquire_spec(result) is Ok <==> result == ACQUIRED,
        check_acquire_spec(0x102) is Err,
        check_acquire_spec(0x80) is Err,
{
}

/// What the renderer does with a surface whose texture passed the owner
/// and adapter checks.
#[derive(Clone, Copy, Debug, PartialEq, Eq, Structural)]
pub enum SurfacePlan {
    /// Nothing of it is visible: it is skipped, and no key is acquired.
    Skip,
    /// Its visible part is copied; `keyed` says whether key 0 of its keyed
    /// mutex is acquired around the copy.
    Copy { keyed: bool },
}

pub open spec fn plan_surface_spec(
    source: TextureDescriptor,
    size: (u32, u32),
    target: TextureDescriptor,
    sync: ExternalTextureSync,
    visible: bool,
) -> Result<SurfacePlan, TextureError> {
    if validate_descriptor_spec(source, size) is Err {
        Err(validate_descriptor_spec(source, size)->Err_0)
    } else if check_target_spec(source, target) is Err {
        Err(TextureError::TargetMismatch)
    } else if !visible {
        Ok(SurfacePlan::Skip)
    } else {
        match needs_keyed_mutex_spec(sync, source) {
            Ok(keyed) => Ok(SurfacePlan::Copy { keyed }),
            Err(e) => Err(e),
        }
    }
}

/// The checks of one surface, in the order the renderer makes them: the
/// texture against its declared size and layout, the render target, then
/// whether any of it is visible, and last its synchronization. Every
/// refusal comes before a key would be acquired, and an invisible surface
/// acquires none.
pub fn plan_surface(
    source: &TextureDescriptor,
    size: (u32, u32),
    target: &TextureDescriptor,
    sync: ExternalTextureSync,
    visible: bool,
) -> (r: Result<SurfacePlan, TextureError>)
    ensures
        r == plan_surface_spec(*source, size, *target, sync, visible),
{
    validate_descriptor(source, size)?;
    check_target(source, target)?;
    if !visible {
        return Ok(SurfacePlan::Skip);
    }
    let keyed = needs_keyed_mutex(sync, source)?;
    Ok(SurfacePlan::Copy { keyed })
}

/// A keyed mutex is acquired only for a visible surface whose every check
/// passed, and exactly when its owner declared keyed synchronization.
pub proof fn lemma_key_acquired_only_after_checks(
    source: TextureDescriptor,
    size: (u32, u32),
    target: TextureDescriptor,
    sync: ExternalTextureSync,
    visible: bool,
)
    ensures
        plan_surface_spec(source, size, target, sync, visible) matches Ok(SurfacePlan::Copy { keyed })
            ==> {
            &&& visible
            &&& validate_descriptor_spec(source, size) is Ok
            &&& check_target_spec(source, target) is Ok
            &&& keyed == (sync == ExternalTextureSync::KeyedMutex)
            &&& !keyed ==> !is_keyed(source)
        },
        !visible && validate_descriptor_spec(source, size) is Ok && check_target_spec(source, target)
            is Ok ==> plan_surface_spec(source, size, target, sync, visible) == Ok::<
            SurfacePlan,
            TextureError,
        >(SurfacePlan::Skip),
{
}

/// How long a producer waits for its GPU writes to complete before giving
/// up, in milliseconds.
pub const COMPLETION_TIMEOUT_MS: u64 = 5000;

/// The next step of a producer that polls for the completion of its GPU
/// writes before it publishes an immutable texture.
#[derive(Clone, Copy, Debug, PartialEq, Eq, Structural)]
pub enum CompletionPoll {
    /// The writes completed: the texture may be published.
    Done,
    /// Not yet: yield and poll again.
    Wait,
    /// The writes did not complete in time.
    TimedOut,
}

pub open spec fn completion_poll_spec(complete: u32, elapsed_ms: u64) -> CompletionPoll {
    if complete != 0 {
        CompletionPoll::Done
    } else if elapsed_ms < COMPLETION_TIMEOUT_MS {
        CompletionPoll::Wait
    } else {
        CompletionPoll::TimedOut
    }
}

/// The step after a completion query answered `complete` (nonzero once the
/// writes finished), `elapsed_ms` milliseconds after the writes were issued.
pub fn completion_poll(complete: u32, elapsed_ms: u64) -> (step: CompletionPoll)
    ensures
        step == completion_poll_spec(complete, elapsed_ms),
{
    if complete != 0 {
        CompletionPoll::Done
    } else if elapsed_ms < COMPLETION_TIMEOUT_MS {
        CompletionPoll::Wait
    } else {
        CompletionPoll::TimedOut
    }
}

/// A texture is accepted exactly when it has the declared nonzero size and
/// is single-mip, single-layer, single-sample BGRA8 UNORM; its usage, bind,
/// CPU-access and sharing flags play no part, so a plain shared texture is
/// accepted as readily as one with a keyed mutex.
pub proof fn lemma_descriptor_accepted_exactly(
    desc: TextureDescriptor,
    size: (u32, u32),
    usage: i32,
    bind_flags: u32,
    cpu_access_flags: u32,
    misc_flags: u32,
)
    ensures
        validate_descriptor_spec(desc, size) is Ok <==> (size.0 > 0 && size.1 > 0 && desc.width
            == size.0 && desc.height == size.1 && desc.format == 87 && desc.mip_levels == 1
            && desc.array_size == 1 && desc.sample_count == 1 && desc.sample_quality == 0),
        validate_descriptor_spec(
            TextureDescriptor { usage, bind_flags, cpu_access_flags, misc_flags, ..desc },
            size,
        ) == validate_descriptor_spec(desc, size),
        validate_descriptor_spec(desc, size) matches Err(e) ==> (e == TextureError::SizeMismatch
            <==> !(size.0 > 0 && size.1 > 0 && desc.width == size.0 && desc.height == size.1)),
        validate_descriptor_spec(desc, size) matches Err(e) ==> (e == TextureError::SizeMismatch
            || e == TextureError::UnsupportedFormat),
{
}

/// A render target is accepted exactly when it has the texture's format
/// and a single sample; the sizes of both play no part (the copy is clipped
/// to the target), nor do any other fields.
pub proof fn lemma_target_accepted_exactly(
    source: TextureDescriptor,
    target: TextureDescriptor,
    width: u32,
    height: u32,
    other_width: u32,
    other_height: u32,
)
    ensures
        check_target_spec(source, target) is Ok <==> (target.format == source.format
            && target.sample_count == 1),
        check_target_spec(
            TextureDescriptor { width: other_width, height: other_height, ..source },
            TextureDescriptor { width, height, ..target },
        ) == check_target_spec(source, target),
        check_target_spec(source, target) is Err ==> check_target_spec(source, target) == Err::<
            (),
            TextureError,
        >(TextureError::TargetMismatch),
{
}

/// A texture is accepted from exactly the renderer's own adapter: both
/// halves of the LUID must be equal, so acceptance is symmetric and any
/// other adapter, with a smaller or larger LUID, is refused.
pub proof fn lemma_same_adapter_only(owner: (u32, i32), renderer: (u32, i32))
    ensures
        check_adapter_spec(owner, renderer) is Ok <==> (owner.0 == renderer.0 && owner.1
            == renderer.1),
        check_adapter_spec(owner, renderer) is Ok <==> check_adapter_spec(renderer, owner) is Ok,
        check_adapter_spec(owner, owner) is Ok,
        check_adapter_spec(owner, renderer) is Err ==> check_adapter_spec(owner, renderer) == Err::<
            (),
            TextureError,
        >(TextureError::AdapterMismatch),
{
}

} // verus!
