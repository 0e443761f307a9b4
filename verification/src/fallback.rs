//! Configuration of the fallback image and the record of its handle.
use crate::handle::Handle;
use vstd::prelude::*;

verus! {

/// Configuration for fallback-texture resolution: the single option is the
/// path of the fallback image inside the host's asset directory. The host
/// wires this into its startup and update schedule: at startup it asks its
/// loader for the configured path and keeps the returned handle in a
/// [`FallbackAsset`]; on every tick it runs the resolver.
pub struct MissingTexturePlugin {
    path: &'static str,
}

impl MissingTexturePlugin {
    /// The configured path of the fallback image.
    pub closed spec fn spec_path(&self) -> Seq<char> {
        self.path@
    }

    /// This overrides the default path, which is `missing_texture.png` in
    /// the host's asset directory.
    pub fn new(path: &'static str) -> (plugin: Self)
        ensures
            plugin.spec_path() == path@,
    {
        MissingTexturePlugin { path }
    }

    /// The path of the fallback image, to hand to the host's loader.
    pub fn path(&self) -> (path: &'static str)
        ensures
            path@ == self.spec_path(),
    {
        self.path
    }
}

impl Default for MissingTexturePlugin {
    /// The default configuration: the fallback image is `missing_texture.png`.
    fn default() -> (plugin: Self)
        ensures
            plugin.spec_path() == "missing_texture.png"@,
    {
        MissingTexturePlugin { path: "missing_texture.png" }
    }
}

/// The record of the fallback image: the configured source path and the
/// handle the external loader returned for it. Created once at startup and
/// never mutated afterwards; its backing content becomes available in the
/// container asynchronously, some ticks later.
pub struct FallbackAsset {
    path: &'static str,
    handle: Handle,
}

impl FallbackAsset {
    /// The source path the fallback image was requested under.
    pub closed spec fn spec_path(&self) -> Seq<char> {
        self.path@
    }

    /// The handle the external loader returned for the fallback image: the
    /// single source of truth for what to substitute with.
    pub closed spec fn spec_handle(&self) -> Handle {
        self.handle
    }

    /// Records the handle the external loader returned when asked for the
    /// fallback image at `path`. The load itself is non-blocking and happens
    /// in the host's loader; failure of the fallback load is not specially
    /// handled — resolution simply waits until the content appears.
    pub fn new(path: &'static str, handle: Handle) -> (fallback: Self)
        ensures
            fallback.spec_path() == path@,
            fallback.spec_handle() == handle,
    {
        FallbackAsset { path, handle }
    }

    /// The handle of the fallback image.
    pub fn handle(&self) -> (handle: Handle)
        ensures
            handle == self.spec_handle(),
    {
        self.handle
    }

    /// The source path the fallback image was requested under.
    pub fn path(&self) -> (path: &'static str)
        ensures
            path@ == self.spec_path(),
    {
        self.path
    }
}

} // verus!
