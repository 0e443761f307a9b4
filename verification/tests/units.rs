//! Per-component checks for the fallback-resolution core.
use missing_texture::Container;
use missing_texture::FallbackAsset;
use missing_texture::Handle;
use missing_texture::LoadState;
use missing_texture::Loader;
use missing_texture::MissingTexturePlugin;
use missing_texture::ReplaceIfMissing;

#[test]
fn empty_registry_poll_is_a_noop() {
    let fb_handle = Handle::new(100);
    let mut images = Container::new();
    images.set(fb_handle, vec![b'F']);
    images.set(Handle::new(5), vec![b'Q']);
    let fallback = FallbackAsset::new("missing_texture.png", fb_handle);
    let mut registry = ReplaceIfMissing::new();
    let loader = Loader::new();

    registry.poll(&loader, &fallback, &mut images);
    assert_eq!(registry.len(), 0);
    assert_eq!(images.len(), 2);
    assert_eq!(images.get(fb_handle).unwrap(), &vec![b'F']);
    assert_eq!(images.get(Handle::new(5)).unwrap(), &vec![b'Q']);
}

#[test]
fn no_writes_while_fallback_content_is_missing() {
    let fb_handle = Handle::new(100);
    let mut images = Container::new();
    let h5 = Handle::new(5);
    images.set(h5, vec![b'Q']);
    let fallback = FallbackAsset::new("missing_texture.png", fb_handle);
    let mut registry = ReplaceIfMissing::new();
    let h1 = Handle::new(1);
    registry.register(h1);
    registry.register(h5);

    let mut loader = Loader::new();
    loader.set_state(h1, LoadState::Failed);
    loader.set_state(h5, LoadState::Failed);
    registry.poll(&loader, &fallback, &mut images);

    // Even confirmed failures are deferred: nothing was written, nothing
    // was removed.
    assert_eq!(registry.len(), 2);
    assert!(registry.is_tracked(h1));
    assert!(registry.is_tracked(h5));
    assert_eq!(images.len(), 1);
    assert!(images.get(h1).is_none());
    assert_eq!(images.get(h5).unwrap(), &vec![b'Q']);
}

#[test]
fn substituted_slots_hold_independent_copies() {
    let fb_handle = Handle::new(100);
    let mut images = Container::new();
    images.set(fb_handle, vec![b'F']);
    let fallback = FallbackAsset::new("missing_texture.png", fb_handle);
    let mut registry = ReplaceIfMissing::new();
    let h5 = Handle::new(5);
    let h6 = Handle::new(6);
    registry.register(h5);
    registry.register(h6);

    let mut loader = Loader::new();
    loader.set_state(h5, LoadState::Failed);
    loader.set_state(h6, LoadState::Failed);
    registry.poll(&loader, &fallback, &mut images);
    assert_eq!(images.get(h5).unwrap(), &vec![b'F']);
    assert_eq!(images.get(h6).unwrap(), &vec![b'F']);

    // Overwriting one substituted slot afterwards affects neither the other
    // slot nor the canonical fallback content.
    images.set(h5, vec![b'Z']);
    assert_eq!(images.get(h5).unwrap(), &vec![b'Z']);
    assert_eq!(images.get(h6).unwrap(), &vec![b'F']);
    assert_eq!(images.get(fb_handle).unwrap(), &vec![b'F']);
}

#[test]
fn unreported_handles_read_as_loading_and_stay_tracked() {
    let fb_handle = Handle::new(100);
    let mut images = Container::new();
    images.set(fb_handle, vec![b'F']);
    let fallback = FallbackAsset::new("missing_texture.png", fb_handle);
    let mut registry = ReplaceIfMissing::new();
    let h9 = Handle::new(9);
    registry.register(h9);

    // The loader has not reported on h9 at all.
    let loader = Loader::new();
    assert_eq!(loader.load_state(h9), LoadState::Loading);
    registry.poll(&loader, &fallback, &mut images);
    assert!(registry.is_tracked(h9));
    assert!(images.get(h9).is_none());
}

#[test]
fn loader_records_latest_state() {
    let mut loader = Loader::new();
    let h = Handle::new(42);
    loader.set_state(h, LoadState::Loading);
    assert_eq!(loader.load_state(h), LoadState::Loading);
    loader.set_state(h, LoadState::Failed);
    assert_eq!(loader.load_state(h), LoadState::Failed);
    loader.set_state(h, LoadState::Loaded);
    assert_eq!(loader.load_state(h), LoadState::Loaded);
    assert_eq!(loader.load_state(Handle::new(43)), LoadState::Loading);
}

#[test]
fn container_set_overwrites_in_place() {
    let mut images = Container::new();
    let h = Handle::new(1);
    assert!(images.get(h).is_none());
    assert!(!images.contains(h));
    images.set(h, vec![1, 2, 3]);
    assert!(images.contains(h));
    assert_eq!(images.get(h).unwrap(), &vec![1, 2, 3]);
    images.set(h, vec![4]);
    assert_eq!(images.get(h).unwrap(), &vec![4]);
    assert_eq!(images.len(), 1);
}

#[test]
fn plugin_path_defaults_and_overrides() {
    let plugin = MissingTexturePlugin::default();
    assert_eq!(plugin.path(), "missing_texture.png");
    let plugin = MissingTexturePlugin::new("art/absent.png");
    assert_eq!(plugin.path(), "art/absent.png");
}

#[test]
fn fallback_asset_remembers_path_and_handle() {
    let handle = Handle::new(100);
    let fallback = FallbackAsset::new("missing_texture.png", handle);
    assert_eq!(fallback.path(), "missing_texture.png");
    assert_eq!(fallback.handle(), handle);
}

#[test]
fn registry_tracks_registrations() {
    let mut registry = ReplaceIfMissing::default();
    assert_eq!(registry.len(), 0);
    let h = Handle::new(8);
    assert!(!registry.is_tracked(h));
    registry.register(h);
    assert!(registry.is_tracked(h));
    assert_eq!(registry.len(), 1);
    assert_eq!(registry.tracked_at(0), Some(h));
    assert_eq!(registry.tracked_at(1), None);
}
