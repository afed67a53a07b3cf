use gpui_windows::cache::{ExternalTextureCache, OpenError};
use std::cell::Cell;
use gpui_windows::texture::TextureError;
use std::sync::{Arc, Weak};

struct Entry {
    owner: Weak<u32>,
    texture: &'static str,
}

#[test]
fn one_open_per_owner_and_prune_after_last_owner_drops() {
    let mut cache: ExternalTextureCache<&'static str, Entry> = ExternalTextureCache::default();
    assert!(!cache.uses_device(1));
    cache.reset();
    cache.bind(1, "opener", (9, 0));
    assert!(cache.uses_device(1));
    assert_eq!(cache.check_adapter((9, 0)), Ok(()));
    assert_eq!(cache.check_adapter((9, 1)), Err(TextureError::AdapterMismatch));
    assert_eq!(cache.opener().map(|o| *o), Ok("opener"));

    let owner = Arc::new(5u32);
    let key = Arc::as_ptr(&owner) as usize;
    for _ in 0..32 {
        if !cache.contains(key) {
            let inserted = cache.insert_vacant(
                key,
                Entry { owner: Arc::downgrade(&owner), texture: "first" },
            );
            assert!(inserted);
        }
        assert_eq!(cache.get(key).map(|e| e.texture), Ok("first"));
    }
    assert!(!cache.insert_vacant(key, Entry { owner: Arc::downgrade(&owner), texture: "second" }));
    assert_eq!(cache.get(key).map(|e| e.texture), Ok("first"));
    assert_eq!(cache.len(), 1);

    let retained = owner.clone();
    drop(owner);
    cache.prune(|e: &Entry| e.owner.strong_count() > 0);
    assert_eq!(cache.len(), 1);
    assert!(cache.uses_device(1));
    drop(retained);
    cache.prune(|e: &Entry| e.owner.strong_count() > 0);
    assert_eq!(cache.len(), 0);
    assert!(!cache.uses_device(1));
    assert_eq!(cache.opener().err(), Some(TextureError::DeviceMissing));
    assert_eq!(cache.check_adapter((9, 0)), Err(TextureError::AdapterMismatch));
    assert_eq!(cache.get(key).err(), Some(TextureError::EntryMissing));
}

#[test]
fn prune_keeps_live_entries_and_their_device() {
    let mut cache: ExternalTextureCache<u8, u32> = ExternalTextureCache::default();
    cache.bind(3, 0, (1, 1));
    for k in 0..10usize {
        assert!(cache.insert_vacant(k, k as u32));
    }
    cache.prune(|v: &u32| v % 2 == 0);
    assert_eq!(cache.len(), 5);
    for k in 0..10usize {
        assert_eq!(cache.contains(k), k % 2 == 0);
    }
    assert!(cache.uses_device(3));
    assert_eq!(cache.get(4), Ok(&4));
}

#[test]
fn device_change_discards_every_entry() {
    let mut cache: ExternalTextureCache<u8, u32> = ExternalTextureCache::default();
    cache.bind(3, 0, (1, 1));
    cache.insert_vacant(1, 10);
    cache.insert_vacant(2, 20);
    assert!(!cache.uses_device(4));
    cache.reset();
    assert_eq!(cache.len(), 0);
    cache.bind(4, 1, (2, 2));
    assert_eq!(cache.len(), 0);
    assert!(cache.uses_device(4));
    assert!(!cache.uses_device(3));
    assert_eq!(cache.check_adapter((1, 1)), Err(TextureError::AdapterMismatch));
}

#[test]
fn empty_prune_forgets_the_device() {
    let mut cache: ExternalTextureCache<u8, u32> = ExternalTextureCache::default();
    cache.bind(3, 0, (1, 1));
    cache.prune(|_: &u32| true);
    assert!(!cache.uses_device(3));
}

#[test]
fn get_or_open_opens_each_owner_once_per_device() {
    let opened = Cell::new(0u32);
    let bound = Cell::new(0u32);
    let mut cache: ExternalTextureCache<u8, u32> = ExternalTextureCache::default();
    let bind = |id: u8| {
        let bound = &bound;
        move || -> Result<(u8, (u32, i32)), &'static str> {
            bound.set(bound.get() + 1);
            Ok((id, (7, -1)))
        }
    };
    let open = |value: u32| {
        let opened = &opened;
        move |opener: &u8| -> Result<u32, &'static str> {
            opened.set(opened.get() + 1);
            Ok(value + u32::from(*opener))
        }
    };
    for _ in 0..32 {
        let r = cache.get_or_open(1, bind(10), (7, -1), 42, open(100));
        assert_eq!(r.ok().copied(), Some(110));
    }
    assert_eq!((bound.get(), opened.get()), (1, 1));
    assert_eq!(cache.len(), 1);

    // Another adapter's texture is refused and gains no entry.
    let r = cache.get_or_open(1, bind(10), (8, -1), 43, open(200));
    assert!(matches!(r, Err(OpenError::Texture(TextureError::AdapterMismatch))));
    assert_eq!((cache.len(), opened.get()), (1, 1));

    // A new device drops the old textures and opens again.
    let r = cache.get_or_open(2, bind(20), (7, -1), 42, open(100));
    assert_eq!(r.ok().copied(), Some(120));
    assert_eq!((bound.get(), opened.get(), cache.len()), (2, 2, 1));

    // A failed open caches nothing; a failed bind leaves an empty cache.
    let r = cache.get_or_open(2, bind(20), (7, -1), 44, |_: &u8| Err("open failed"));
    assert!(matches!(r, Err(OpenError::Device("open failed"))));
    assert!(!cache.contains(44));
    let r = cache.get_or_open(3, || Err("no adapter"), (7, -1), 42, open(1));
    assert!(matches!(r, Err(OpenError::Device("no adapter"))));
    assert_eq!(cache.len(), 0);
    assert!(!cache.uses_device(3));
}
