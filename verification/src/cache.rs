//! The renderer's cache of opened external textures.
//!
//! Opened textures are cached per owner (the key is the identity of the
//! owner's shared allocation, never a handle value) and per device. The
//! cache holds an opener `D` for its device and one entry `T` per key.

use vstd::prelude::*;
use std::collections::HashMap;
use vstd::std_specs::hash::spec_keys_iter;
use vstd::std_specs::iter::IteratorSpec;
use crate::texture::TextureError;

verus! {

broadcast use vstd::std_specs::hash::group_hash_axioms;

/// What an [`ExternalTextureCache`] holds.
pub struct CacheView<D, T> {
    /// The identity of the device whose textures the entries are.
    pub device: Option<usize>,
    pub opener: Option<D>,
    pub adapter_luid: Option<(u32, i32)>,
    pub entries: Map<usize, T>,
}

impl<D, T> CacheView<D, T> {
    /// The cache after its entries were restricted to `kept`: once empty,
    /// it also forgets its device.
    pub open spec fn restricted(self, kept: Map<usize, T>) -> CacheView<D, T> {
        if kept.is_empty() {
            CacheView { device: None, opener: None, adapter_luid: None, entries: kept }
        } else {
            CacheView { entries: kept, ..self }
        }
    }
}

impl<D, T> CacheView<D, T> {
    pub open spec fn after_bind(self, device: usize, opener: D, adapter_luid: (u32, i32)) -> CacheView<D, T> {
        CacheView {
            device: Some(device),
            opener: Some(opener),
            adapter_luid: Some(adapter_luid),
            entries: self.entries,
        }
    }

    /// The cache after offering `entry` for `key`: an entry already cached
    /// for the key is kept, never replaced.
    pub open spec fn after_insert(self, key: usize, entry: T) -> CacheView<D, T> {
        if self.entries.contains_key(key) {
            self
        } else {
            CacheView { entries: self.entries.insert(key, entry), ..self }
        }
    }
}

pub open spec fn empty_cache<D, T>() -> CacheView<D, T> {
    CacheView { device: None, opener: None, adapter_luid: None, entries: Map::empty() }
}

/// Why [`ExternalTextureCache::get_or_open`] returned no texture.
#[derive(Debug)]
pub enum OpenError<E> {
    /// A check refused the texture.
    Texture(TextureError),
    /// Binding the device, or opening the texture, failed.
    Device(E),
}

/// Opened external textures, for one device at a time.
pub struct ExternalTextureCache<D, T> {
    device: Option<usize>,
    opener: Option<D>,
    adapter_luid: Option<(u32, i32)>,
    entries: HashMap<usize, T>,
}

impl<D, T> View for ExternalTextureCache<D, T> {
    type V = CacheView<D, T>;

    closed spec fn view(&self) -> CacheView<D, T> {
        CacheView {
            device: self.device,
            opener: self.opener,
            adapter_luid: self.adapter_luid,
            entries: self.entries@,
        }
    }
}

impl<D, T> Default for ExternalTextureCache<D, T> {
    /// A cache with no device and no entries.
    fn default() -> (c: Self)
        ensures
            c@ == empty_cache::<D, T>(),
    {
        ExternalTextureCache {
            device: None,
            opener: None,
            adapter_luid: None,
            entries: HashMap::new(),
        }
    }
}

impl<D, T> ExternalTextureCache<D, T> {
    /// Drops the entries whose owner is gone, as `is_live` tells; a cache
    /// left empty forgets its device too.
    pub fn prune<F: Fn(&T) -> bool>(&mut self, is_live: F)
        requires
            forall|k: usize| #[trigger]
                old(self)@.entries.contains_key(k) ==> is_live.requires((&old(self)@.entries[k],)),
        ensures
            final(self)@.entries.submap_of(old(self)@.entries),
            forall|k: usize| #[trigger]
                old(self)@.entries.contains_key(k) ==> (final(self)@.entries.contains_key(k)
                    ==> is_live.ensures((&old(self)@.entries[k],), true)),
            forall|k: usize| #[trigger]
                old(self)@.entries.contains_key(k) ==> (!final(self)@.entries.contains_key(k)
                    ==> is_live.ensures((&old(self)@.entries[k],), false)),
            final(self)@ == old(self)@.restricted(final(self)@.entries),
    {
        let ghost m0 = self.entries@;
        let ghost all = spec_keys_iter(&self.entries).remaining().unref();
        let mut keys: Vec<usize> = Vec::new();
        for k in it: self.entries.keys()
            invariant
                it.seq().unref() == all,
                keys@ == all.take(it.index()),
                m0 == old(self)@.entries,
                forall|k: usize| #[trigger] m0.contains_key(k) ==> is_live.requires((&m0[k],)),
        {
            keys.push(*k);
        }
        assert(keys@ =~= all);
        assert(all.to_set() == m0.dom());
        let mut i: usize = 0;
        while i < keys.len()
            invariant
                0 <= i <= keys@.len(),
                keys@.to_set() == m0.dom(),
                forall|k: usize| #[trigger] m0.contains_key(k) ==> is_live.requires((&m0[k],)),
                self.entries@.submap_of(m0),
                forall|k: usize| #[trigger]
                    m0.contains_key(k) && !keys@.take(i as int).contains(k)
                        ==> self.entries@.contains_key(k),
                forall|k: usize| #[trigger]
                    m0.contains_key(k) ==> (self.entries@.contains_key(k) && keys@.take(
                        i as int,
                    ).contains(k) ==> is_live.ensures((&m0[k],), true)),
                forall|k: usize| #[trigger]
                    m0.contains_key(k) ==> (!self.entries@.contains_key(k) ==> is_live.ensures(
                        (&m0[k],),
                        false,
                    )),
                self.device == old(self).device,
                self.opener == old(self).opener,
                self.adapter_luid == old(self).adapter_luid,
            decreases keys@.len() - i,
        {
            let k = keys[i];
            let ghost before = self.entries@;
            let live = match self.entries.get(&k) {
                Some(v) => {
                    proof {
                        assert(self.entries@.contains_key(k));
                        assert(m0.contains_key(k));
                        assert(m0[k] == *v);
                    }
                    is_live(v)
                },
                None => true,
            };
            if !live {
                self.entries.remove(&k);
            }
            proof {
                assert(keys@.take(i + 1) =~= keys@.take(i as int).push(k));
                assert(keys@.take(i + 1)[i as int] == k);
                assert forall|k2: usize| #[trigger]
                    m0.contains_key(k2) && !keys@.take(i + 1).contains(k2)
                        implies self.entries@.contains_key(k2) by {
                    assert(k2 != k);
                    assert(!keys@.take(i as int).contains(k2));
                }
            }
            i = i + 1;
        }
        assert(keys@.take(keys@.len() as int) =~= keys@);
        if self.entries.is_empty() {
            self.device = None;
            self.opener = None;
            self.adapter_luid = None;
        }
    }

    /// Whether the entries were opened with the device `device`.
    pub fn uses_device(&self, device: usize) -> (r: bool)
        ensures
            r == (self@.device == Some(device)),
    {
        match self.device {
            Some(d) => d == device,
            None => false,
        }
    }

    /// Forgets the device and every entry opened with it.
    pub fn reset(&mut self)
        ensures
            final(self)@ == empty_cache::<D, T>(),
    {
        self.entries.clear();
        self.device = None;
        self.opener = None;
        self.adapter_luid = None;
    }

    /// Adopts the device `device`, with the opener made from it and the LUID
    /// of its adapter.
    pub fn bind(&mut self, device: usize, opener: D, adapter_luid: (u32, i32))
        ensures
            final(self)@ == old(self)@.after_bind(device, opener, adapter_luid),
    {
        self.device = Some(device);
        self.opener = Some(opener);
        self.adapter_luid = Some(adapter_luid);
    }

    /// A texture from adapter `owner_luid` can be opened with this cache's
    /// device only if that device is on the same adapter.
    pub fn check_adapter(&self, owner_luid: (u32, i32)) -> (r: Result<(), TextureError>)
        ensures
            r == (if self@.adapter_luid == Some(owner_luid) {
                Ok(())
            } else {
                Err(TextureError::AdapterMismatch)
            }),
    {
        match self.adapter_luid {
            Some(luid) => {
                if luid.0 == owner_luid.0 && luid.1 == owner_luid.1 {
                    Ok(())
                } else {
                    Err(TextureError::AdapterMismatch)
                }
            },
            None => Err(TextureError::AdapterMismatch),
        }
    }

    /// The opener of the cache's device.
    pub fn opener(&self) -> (r: Result<&D, TextureError>)
        ensures
            match self@.opener {
                Some(o) => r == Ok::<&D, TextureError>(&o),
                None => r == Err::<&D, TextureError>(TextureError::DeviceMissing),
            },
    {
        match &self.opener {
            Some(o) => Ok(o),
            None => Err(TextureError::DeviceMissing),
        }
    }

    /// Whether a texture is cached for `key`.
    pub fn contains(&self, key: usize) -> (r: bool)
        ensures
            r == self@.entries.contains_key(key),
    {
        self.entries.contains_key(&key)
    }

    /// Caches `entry` for `key` unless an entry is cached for it already.
    /// Returns whether `entry` was cached.
    pub fn insert_vacant(&mut self, key: usize, entry: T) -> (inserted: bool)
        ensures
            inserted == !old(self)@.entries.contains_key(key),
            final(self)@ == old(self)@.after_insert(key, entry),
    {
        if self.entries.contains_key(&key) {
            false
        } else {
            self.entries.insert(key, entry);
            true
        }
    }

    /// The texture cached for `key`.
    pub fn get(&self, key: usize) -> (r: Result<&T, TextureError>)
        ensures
            self@.entries.contains_key(key) ==> r == Ok::<&T, TextureError>(&self@.entries[key]),
            !self@.entries.contains_key(key) ==> r == Err::<&T, TextureError>(
                TextureError::EntryMissing,
            ),
    {
        match self.entries.get(&key) {
            Some(t) => Ok(t),
            None => Err(TextureError::EntryMissing),
        }
    }

    /// The texture of the owner with key `key` and adapter `owner_luid`,
    /// for the device with identity `device`. A new device drops every
    /// cached texture and is bound through `bind`, which yields its opener
    /// and its adapter's LUID. A texture from another adapter is refused. A
    /// texture is opened through `open` only when none is cached for `key`;
    /// a cached one is returned without opening it again (`open` may then
    /// have no precondition that holds, and it is not called).
    pub fn get_or_open<E, B, O>(
        &mut self,
        device: usize,
        bind: B,
        owner_luid: (u32, i32),
        key: usize,
        open: O,
    ) -> (r: Result<&T, OpenError<E>>) where
        B: FnOnce() -> Result<(D, (u32, i32)), E>,
        O: FnOnce(&D) -> Result<T, E>,

        requires
            old(self)@.device != Some(device) ==> bind.requires(()),
            !(old(self)@.device == Some(device) && old(self)@.entries.contains_key(key)) ==> forall|
                o: D,
            | open.requires((&o,)),
        ensures
            ({
                let o = old(self)@;
                let f = final(self)@;
                let rebound = o.device != Some(device);
                let was_cached = !rebound && o.entries.contains_key(key);
                // A new device drops every texture of the old one.
                &&& rebound ==> forall|k: usize| #[trigger] f.entries.contains_key(k) ==> k == key
                &&& rebound && f.device == Some(device) ==> f.opener is Some && f.adapter_luid
                    is Some && bind.ensures(
                    (),
                    Ok::<(D, (u32, i32)), E>((f.opener->0, f.adapter_luid->0)),
                )
                &&& rebound && f.device != Some(device) ==> (f == empty_cache::<D, T>() && (r matches Err(
                    OpenError::Device(e),
                ) && bind.ensures((), Err::<(D, (u32, i32)), E>(e))))
                &&& !rebound ==> f.device == o.device && f.opener == o.opener && f.adapter_luid
                    == o.adapter_luid
                // Other keys keep what they had; at most the one key gains an entry.
                &&& forall|k: usize|
                    k != key ==> (#[trigger] f.entries.contains_key(k) <==> !rebound
                        && o.entries.contains_key(k))
                &&& forall|k: usize| #[trigger]
                    f.entries.contains_key(k) && (k != key || was_cached) ==> f.entries[k]
                        == o.entries[k]
                // Another adapter's texture is refused and gains no entry.
                &&& f.device == Some(device) && f.adapter_luid != Some(owner_luid) ==> ((r matches Err(
                    OpenError::Texture(TextureError::AdapterMismatch),
                )) && (f.entries.contains_key(key) <==> was_cached))
                // Success returns the key's entry.
                &&& r is Ok <==> (f.device == Some(device) && f.adapter_luid == Some(owner_luid)
                    && f.entries.contains_key(key))
                &&& r matches Ok(e) ==> *e == f.entries[key]
                // A cached texture is returned as it is, and nothing changes.
                &&& was_cached && o.adapter_luid == Some(owner_luid) ==> f == o
                // A texture newly cached is what `open` gave for the opener.
                &&& f.entries.contains_key(key) && !was_cached ==> f.opener is Some && open.ensures(
                    (&f.opener->0,),
                    Ok::<T, E>(f.entries[key]),
                )
                // Why it failed otherwise.
                &&& r matches Err(OpenError::Device(e)) ==> (rebound && f == empty_cache::<D, T>()
                    && bind.ensures((), Err::<(D, (u32, i32)), E>(e))) || (f.opener is Some
                    && !f.entries.contains_key(key) && open.ensures(
                    (&f.opener->0,),
                    Err::<T, E>(e),
                ))
                &&& r matches Err(OpenError::Texture(x)) ==> (x == TextureError::AdapterMismatch
                    && f.adapter_luid != Some(owner_luid)) || (x == TextureError::DeviceMissing
                    && f.opener is None && !f.entries.contains_key(key))
            }),
    {
        if !self.uses_device(device) {
            self.reset();
            match bind() {
                Ok((opener, luid)) => self.bind(device, opener, luid),
                Err(e) => return Err(OpenError::Device(e)),
            }
        }
        if let Err(e) = self.check_adapter(owner_luid) {
            return Err(OpenError::Texture(e));
        }
        if !self.entries.contains_key(&key) {
            let texture = match &self.opener {
                Some(opener) => match open(opener) {
                    Ok(t) => t,
                    Err(e) => return Err(OpenError::Device(e)),
                },
                None => return Err(OpenError::Texture(TextureError::DeviceMissing)),
            };
            self.entries.insert(key, texture);
        }
        match self.entries.get(&key) {
            Some(t) => Ok(t),
            None => Err(OpenError::Texture(TextureError::EntryMissing)),
        }
    }

    /// Number of opened textures.
    pub fn len(&self) -> (n: usize)
        ensures
            n == self@.entries.len(),
    {
        self.entries.len()
    }
}

/// A device change discards every texture opened with the old device: the
/// cache starts over with the new device and no entries.
pub proof fn lemma_device_change_discards_entries<D, T>(
    device: usize,
    opener: D,
    adapter_luid: (u32, i32),
)
    ensures
        empty_cache::<D, T>().after_bind(device, opener, adapter_luid).entries.is_empty(),
        empty_cache::<D, T>().after_bind(device, opener, adapter_luid).device == Some(device),
{
}

/// One open per owner: offering a second texture for a cached key changes
/// nothing, and the first one stays what the key reads.
pub proof fn lemma_one_entry_per_owner<D, T>(v: CacheView<D, T>, key: usize, first: T, second: T)
    ensures
        v.after_insert(key, first).after_insert(key, second) == v.after_insert(key, first),
        v.after_insert(key, first).entries.contains_key(key),
        !v.entries.contains_key(key) ==> v.after_insert(key, first).entries[key] == first,
{
}

/// What pruning keeps is a part of what was cached, unchanged; a cache
/// left empty holds no device, and one that is not keeps its device.
pub proof fn lemma_pruned_cache_holds_no_device<D, T>(v: CacheView<D, T>, kept: Map<usize, T>)
    requires
        kept.submap_of(v.entries),
    ensures
        v.restricted(kept).entries == kept,
        kept.is_empty() ==> v.restricted(kept).device is None && v.restricted(kept).opener is None
            && v.restricted(kept).adapter_luid is None,
        !kept.is_empty() ==> v.restricted(kept).device == v.device && v.restricted(kept).opener
            == v.opener,
{
}

} // verus!
