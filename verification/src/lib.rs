//! Safe, verified core of a binding layer for an HTML/CSS rendering engine.
//!
//! The engine drives a GPU driver bridge over a callback interface: it asks
//! for integer handles, announces textures, render buffers and geometries,
//! and submits ordered command lists.  The bridge owns the GPU-side book
//! keeping for those handles and translates each command list into an
//! explicit, backend-neutral sequence of GPU operations.  Everything the
//! bridge decides — handle allocation, resource-table bookkeeping, pixel
//! format expansion, pipeline selection, command translation and the order
//! of the pending submission pool — is implemented and specified here.
//!
//! The pieces that must touch the outside world (the engine's C callbacks,
//! the window system, the device queue) live with the embedder, which calls
//! into this crate with plain values and interprets the operation lists the
//! bridge hands back.

use vstd::prelude::*;

pub mod gpu;
pub mod gpu_driver;
pub mod platform;
pub mod surface;

verus! {

/// Engine configuration, held as plain values.  The embedder applies these
/// settings to the engine when it creates the renderer.
pub struct Config {
    /// Prefix prepended by the engine to its resource paths.
    pub resource_path_prefix: Option<String>,
    /// Directory the engine may use as a persistent cache.
    pub cache_path: Option<String>,
}

impl Config {
    /// Sets the resource path prefix the engine will use.
    pub fn set_resource_path_prefix(&mut self, path: String)
        ensures
            final(self).resource_path_prefix == Some(path),
            final(self).cache_path == old(self).cache_path,
    {
        self.resource_path_prefix = Some(path);
    }

    /// Sets the engine's cache directory.
    pub fn set_cache_path(&mut self, path: String)
        ensures
            final(self).cache_path == Some(path),
            final(self).resource_path_prefix == old(self).resource_path_prefix,
    {
        self.cache_path = Some(path);
    }
}

impl Default for Config {
    /// A configuration with no paths chosen yet.
    fn default() -> (r: Self)
        ensures
            r.resource_path_prefix is None,
            r.cache_path is None,
    {
        Config { resource_path_prefix: None, cache_path: None }
    }
}

/// Per-view configuration, held as plain values.
pub struct ViewConfig {
    /// Whether the view renders through the GPU driver bridge rather than
    /// into a CPU surface.
    pub is_accelerated: bool,
    /// Whether the view's background is transparent.
    pub is_transparent: bool,
}

impl ViewConfig {
    /// Requests GPU-accelerated rendering for views created with this
    /// configuration.
    pub fn set_gpu_accelerated(&mut self)
        ensures
            final(self).is_accelerated,
            final(self).is_transparent == old(self).is_transparent,
    {
        self.is_accelerated = true;
    }
}

impl Default for ViewConfig {
    /// The defaults the binding layer starts from: CPU rendering, with a
    /// transparent background.
    fn default() -> (r: Self)
        ensures
            !r.is_accelerated,
            r.is_transparent,
    {
        ViewConfig { is_accelerated: false, is_transparent: true }
    }
}

/// An owned string destined for the engine.
///
/// The engine receives C strings; this type keeps the text as plain UTF-8
/// until the embedder converts it at the boundary.
pub struct UiString {
    /// The text this engine string carries.
    pub text: String,
}

impl UiString {
    /// The text this engine string carries.
    pub fn as_text(&self) -> (r: &String)
        ensures
            r@ == self@,
    {
        &self.text
    }
}

impl View for UiString {
    type V = Seq<char>;

    open spec fn view(&self) -> Seq<char> {
        self.text@
    }
}

impl From<String> for UiString {
    fn from(value: String) -> (r: Self) {
        UiString { text: value }
    }
}

impl vstd::std_specs::convert::FromSpecImpl<String> for UiString {
    open spec fn obeys_from_spec() -> bool {
        true
    }

    open spec fn from_spec(value: String) -> Self {
        UiString { text: value }
    }
}

} // verus!
