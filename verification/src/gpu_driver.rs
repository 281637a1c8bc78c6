//! The callback surface the engine drives, and the host that owns the one
//! installed driver.
//!
//! The engine invokes the bridge through a fixed set of entry points.  A
//! `DriverHost` holds the installed driver and forwards each entry point
//! to it: with a driver installed, every entry point's contract says the
//! result and the new slot state come from one call of the installed
//! driver's same-named method; before installation it reports nothing so
//! the embedder can abort.  The host is threaded explicitly through the
//! embedder's callback shims; only that boundary needs interior
//! mutability, never the bridge itself.

use vstd::prelude::*;

use crate::gpu::bitmap::{BitmapData, TextureUpload};
use crate::gpu::driver;
use crate::gpu::driver::{BridgeError, CoreDriver, TextureInit};
use crate::gpu::state::{GpuCommand, RenderBufferDesc, VertexLayout};

verus! {

/// The capability set a GPU driver offers the engine: handle allocation,
/// the create/update/destroy triplets for textures, render buffers and
/// geometries, and command-list submission.  [`CoreDriver`] is the
/// bridge's own implementation; an embedder may install any other.
///
/// Each entry point's contract is the implementation's own two-state
/// promise (`..._post`), relating the driver before and after the call to
/// the arguments and the result; the host forwards that promise to its
/// callers.
pub trait GpuDriver: Sized {
    /// What one `next_texture_id` call of this implementation promises.
    spec fn next_texture_id_post(pre: Self, post: Self, r: u32) -> bool;

    /// What one `create_texture` call of this implementation promises.
    spec fn create_texture_post(
        pre: Self,
        post: Self,
        id: u32,
        bitmap: BitmapData,
        r: Result<TextureInit, BridgeError>,
    ) -> bool;

    /// What one `update_texture` call of this implementation promises.
    spec fn update_texture_post(
        pre: Self,
        post: Self,
        id: u32,
        bitmap: BitmapData,
        r: Result<TextureUpload, BridgeError>,
    ) -> bool;

    /// What one `destroy_texture` call of this implementation promises.
    spec fn destroy_texture_post(pre: Self, post: Self, id: u32) -> bool;

    /// What one `next_render_buffer_id` call of this implementation
    /// promises.
    spec fn next_render_buffer_id_post(pre: Self, post: Self, r: u32) -> bool;

    /// What one `create_render_buffer` call of this implementation
    /// promises.
    spec fn create_render_buffer_post(
        pre: Self,
        post: Self,
        id: u32,
        desc: RenderBufferDesc,
        r: Result<(), BridgeError>,
    ) -> bool;

    /// What one `destroy_render_buffer` call of this implementation
    /// promises.
    spec fn destroy_render_buffer_post(pre: Self, post: Self, id: u32) -> bool;

    /// What one `next_geometry_id` call of this implementation promises.
    spec fn next_geometry_id_post(pre: Self, post: Self, r: u32) -> bool;

    /// What one `create_geometry` call of this implementation promises.
    spec fn create_geometry_post(
        pre: Self,
        post: Self,
        id: u32,
        layout: VertexLayout,
        vertices: Vec<u8>,
        indices: Vec<u8>,
        r: Result<(), BridgeError>,
    ) -> bool;

    /// What one `update_geometry` call of this implementation promises.
    spec fn update_geometry_post(
        pre: Self,
        post: Self,
        id: u32,
        layout: VertexLayout,
        vertices: Vec<u8>,
        indices: Vec<u8>,
        r: Result<(), BridgeError>,
    ) -> bool;

    /// What one `destroy_geometry` call of this implementation promises.
    spec fn destroy_geometry_post(pre: Self, post: Self, id: u32) -> bool;

    /// What one `update_command_list` call of this implementation
    /// promises.
    spec fn update_command_list_post(
        pre: Self,
        post: Self,
        cmds: Seq<GpuCommand>,
        r: Result<(), BridgeError>,
    ) -> bool;

    /// Issues the next texture handle.
    fn next_texture_id(&mut self) -> (r: u32)
        ensures
            Self::next_texture_id_post(*old(self), *final(self), r),
    ;

    /// Records a created texture described by `bitmap` and says what the
    /// backend must allocate and upload.
    fn create_texture(&mut self, id: u32, bitmap: &BitmapData) -> (r: Result<
        TextureInit,
        BridgeError,
    >)
        ensures
            Self::create_texture_post(*old(self), *final(self), id, *bitmap, r),
    ;

    /// Converts a texture update into the upload the backend performs.
    fn update_texture(&mut self, id: u32, bitmap: &BitmapData) -> (r: Result<
        TextureUpload,
        BridgeError,
    >)
        ensures
            Self::update_texture_post(*old(self), *final(self), id, *bitmap, r),
    ;

    /// Forgets a texture.
    fn destroy_texture(&mut self, id: u32)
        ensures
            Self::destroy_texture_post(*old(self), *final(self), id),
    ;

    /// Issues the next render-buffer handle, recycling destroyed ones.
    fn next_render_buffer_id(&mut self) -> (r: u32)
        ensures
            Self::next_render_buffer_id_post(*old(self), *final(self), r),
    ;

    /// Records a created render buffer.
    fn create_render_buffer(&mut self, id: u32, desc: RenderBufferDesc) -> (r: Result<
        (),
        BridgeError,
    >)
        ensures
            Self::create_render_buffer_post(*old(self), *final(self), id, desc, r),
    ;

    /// Forgets a render buffer and recycles its handle.
    fn destroy_render_buffer(&mut self, id: u32)
        ensures
            Self::destroy_render_buffer_post(*old(self), *final(self), id),
    ;

    /// Issues the next geometry handle.
    fn next_geometry_id(&mut self) -> (r: u32)
        ensures
            Self::next_geometry_id_post(*old(self), *final(self), r),
    ;

    /// Records a created geometry from its raw vertex and index bytes.
    fn create_geometry(
        &mut self,
        id: u32,
        layout: VertexLayout,
        vertices: Vec<u8>,
        indices: Vec<u8>,
    ) -> (r: Result<(), BridgeError>)
        ensures
            Self::create_geometry_post(
                *old(self),
                *final(self),
                id,
                layout,
                vertices,
                indices,
                r,
            ),
    ;

    /// Replaces a geometry's contents wholesale.
    fn update_geometry(
        &mut self,
        id: u32,
        layout: VertexLayout,
        vertices: Vec<u8>,
        indices: Vec<u8>,
    ) -> (r: Result<(), BridgeError>)
        ensures
            Self::update_geometry_post(
                *old(self),
                *final(self),
                id,
                layout,
                vertices,
                indices,
                r,
            ),
    ;

    /// Forgets a geometry.
    fn destroy_geometry(&mut self, id: u32)
        ensures
            Self::destroy_geometry_post(*old(self), *final(self), id),
    ;

    /// Translates a submitted command list and pools the result for the
    /// presentation loop.
    fn update_command_list(&mut self, commands: &Vec<GpuCommand>) -> (r: Result<(), BridgeError>)
        ensures
            Self::update_command_list_post(*old(self), *final(self), commands@, r),
    ;
}

impl GpuDriver for CoreDriver {
    open spec fn next_texture_id_post(pre: CoreDriver, post: CoreDriver, r: u32) -> bool {
        driver::next_texture_id_post(pre, post, r)
    }

    open spec fn create_texture_post(
        pre: CoreDriver,
        post: CoreDriver,
        id: u32,
        bitmap: BitmapData,
        r: Result<TextureInit, BridgeError>,
    ) -> bool {
        driver::create_texture_post(pre, post, id, bitmap, r)
    }

    open spec fn update_texture_post(
        pre: CoreDriver,
        post: CoreDriver,
        id: u32,
        bitmap: BitmapData,
        r: Result<TextureUpload, BridgeError>,
    ) -> bool {
        driver::update_texture_post(pre, post, id, bitmap, r)
    }

    open spec fn destroy_texture_post(pre: CoreDriver, post: CoreDriver, id: u32) -> bool {
        driver::destroy_texture_post(pre, post, id)
    }

    open spec fn next_render_buffer_id_post(pre: CoreDriver, post: CoreDriver, r: u32) -> bool {
        driver::next_render_buffer_id_post(pre, post, r)
    }

    open spec fn create_render_buffer_post(
        pre: CoreDriver,
        post: CoreDriver,
        id: u32,
        desc: RenderBufferDesc,
        r: Result<(), BridgeError>,
    ) -> bool {
        driver::create_render_buffer_post(pre, post, id, desc, r)
    }

    open spec fn destroy_render_buffer_post(pre: CoreDriver, post: CoreDriver, id: u32) -> bool {
        driver::destroy_render_buffer_post(pre, post, id)
    }

    open spec fn next_geometry_id_post(pre: CoreDriver, post: CoreDriver, r: u32) -> bool {
        driver::next_geometry_id_post(pre, post, r)
    }

    open spec fn create_geometry_post(
        pre: CoreDriver,
        post: CoreDriver,
        id: u32,
        layout: VertexLayout,
        vertices: Vec<u8>,
        indices: Vec<u8>,
        r: Result<(), BridgeError>,
    ) -> bool {
        driver::create_geometry_post(pre, post, id, layout, vertices, indices, r)
    }

    open spec fn update_geometry_post(
        pre: CoreDriver,
        post: CoreDriver,
        id: u32,
        layout: VertexLayout,
        vertices: Vec<u8>,
        indices: Vec<u8>,
        r: Result<(), BridgeError>,
    ) -> bool {
        driver::update_geometry_post(pre, post, id, layout, vertices, indices, r)
    }

    open spec fn destroy_geometry_post(pre: CoreDriver, post: CoreDriver, id: u32) -> bool {
        driver::destroy_geometry_post(pre, post, id)
    }

    open spec fn update_command_list_post(
        pre: CoreDriver,
        post: CoreDriver,
        cmds: Seq<GpuCommand>,
        r: Result<(), BridgeError>,
    ) -> bool {
        driver::update_command_list_post(pre, post, cmds, r)
    }

    fn next_texture_id(&mut self) -> (r: u32) {
        CoreDriver::next_texture_id(self)
    }

    fn create_texture(&mut self, id: u32, bitmap: &BitmapData) -> (r: Result<
        TextureInit,
        BridgeError,
    >) {
        CoreDriver::create_texture(self, id, bitmap)
    }

    fn update_texture(&mut self, id: u32, bitmap: &BitmapData) -> (r: Result<
        TextureUpload,
        BridgeError,
    >) {
        CoreDriver::update_texture(self, id, bitmap)
    }

    fn destroy_texture(&mut self, id: u32) {
        CoreDriver::destroy_texture(self, id)
    }

    fn next_render_buffer_id(&mut self) -> (r: u32) {
        CoreDriver::next_render_buffer_id(self)
    }

    fn create_render_buffer(&mut self, id: u32, desc: RenderBufferDesc) -> (r: Result<
        (),
        BridgeError,
    >) {
        CoreDriver::create_render_buffer(self, id, desc)
    }

    fn destroy_render_buffer(&mut self, id: u32) {
        CoreDriver::destroy_render_buffer(self, id)
    }

    fn next_geometry_id(&mut self) -> (r: u32) {
        CoreDriver::next_geometry_id(self)
    }

    fn create_geometry(
        &mut self,
        id: u32,
        layout: VertexLayout,
        vertices: Vec<u8>,
        indices: Vec<u8>,
    ) -> (r: Result<(), BridgeError>) {
        CoreDriver::create_geometry(self, id, layout, vertices, indices)
    }

    fn update_geometry(
        &mut self,
        id: u32,
        layout: VertexLayout,
        vertices: Vec<u8>,
        indices: Vec<u8>,
    ) -> (r: Result<(), BridgeError>) {
        CoreDriver::update_geometry(self, id, layout, vertices, indices)
    }

    fn destroy_geometry(&mut self, id: u32) {
        CoreDriver::destroy_geometry(self, id)
    }

    fn update_command_list(&mut self, commands: &Vec<GpuCommand>) -> (r: Result<
        (),
        BridgeError,
    >) {
        CoreDriver::update_command_list(self, commands)
    }
}

/// Owns the one driver the engine's callbacks reach.  The slot starts
/// empty; the embedder installs a driver before the engine makes its
/// first call, and every entry point reports an uninstalled driver
/// instead of proceeding.
pub struct DriverHost<D: GpuDriver> {
    slot: Option<D>,
}

impl<D: GpuDriver> DriverHost<D> {
    /// The installed driver, if any.
    pub closed spec fn driver(&self) -> Option<D> {
        self.slot
    }

    /// A host with no driver installed yet.
    pub fn new() -> (r: DriverHost<D>)
        ensures
            r.driver() is None,
    {
        DriverHost { slot: None }
    }

    /// Installs `driver` as the driver all entry points reach, replacing
    /// any driver installed before.
    pub fn set_gpu_driver(&mut self, driver: D)
        ensures
            final(self).driver() == Some(driver),
    {
        self.slot = Some(driver);
    }

    /// The installed driver's slot, as the embedder's callback shims and
    /// presentation loop read it.  The slot is threaded explicitly through
    /// the embedder instead of living in process-wide state.
    pub fn static_gpu_driver(&self) -> (r: &Option<D>)
        ensures
            r == &self.driver(),
    {
        &self.slot
    }

    /// The installed driver, for the presentation loop to drain.
    pub fn driver_mut(&mut self) -> (r: Option<&mut D>)
        ensures
            old(self).driver() is None <==> r is None,
            r matches Some(d) ==> old(self).driver() == Some(*d) && final(self).driver() == Some(
                *final(d),
            ),
            old(self).driver() is None ==> *final(self) == *old(self),
    {
        match &mut self.slot {
            Some(d) => Some(d),
            None => None,
        }
    }

    /// Forwards `next_texture_id` to the installed driver: the handle and
    /// the driver left in the slot are one call of that driver's own
    /// `next_texture_id`.  Nothing (for the embedder to treat as fatal)
    /// exactly when no driver is installed.
    pub fn next_texture_id(&mut self) -> (r: Option<u32>)
        ensures
            r is None <==> old(self).driver() is None,
            old(self).driver() is None ==> *final(self) == *old(self),
            old(self).driver() matches Some(d0) ==> {
                &&& r matches Some(v)
                &&& final(self).driver() matches Some(d1)
                &&& D::next_texture_id_post(d0, d1, v)
            },
    {
        match &mut self.slot {
            Some(d) => Some(d.next_texture_id()),
            None => None,
        }
    }

    /// Forwards `create_texture` to the installed driver, whose own
    /// promise relates the result and the new slot state to the call.
    /// Nothing exactly when no driver is installed.
    pub fn create_texture(&mut self, id: u32, bitmap: &BitmapData) -> (r: Option<
        Result<TextureInit, BridgeError>,
    >)
        ensures
            r is None <==> old(self).driver() is None,
            old(self).driver() is None ==> *final(self) == *old(self),
            old(self).driver() matches Some(d0) ==> {
                &&& r matches Some(v)
                &&& final(self).driver() matches Some(d1)
                &&& D::create_texture_post(d0, d1, id, *bitmap, v)
            },
    {
        match &mut self.slot {
            Some(d) => Some(d.create_texture(id, bitmap)),
            None => None,
        }
    }

    /// Forwards `update_texture` to the installed driver, whose own
    /// promise relates the result and the new slot state to the call.
    /// Nothing exactly when no driver is installed.
    pub fn update_texture(&mut self, id: u32, bitmap: &BitmapData) -> (r: Option<
        Result<TextureUpload, BridgeError>,
    >)
        ensures
            r is None <==> old(self).driver() is None,
            old(self).driver() is None ==> *final(self) == *old(self),
            old(self).driver() matches Some(d0) ==> {
                &&& r matches Some(v)
                &&& final(self).driver() matches Some(d1)
                &&& D::update_texture_post(d0, d1, id, *bitmap, v)
            },
    {
        match &mut self.slot {
            Some(d) => Some(d.update_texture(id, bitmap)),
            None => None,
        }
    }

    /// Forwards `destroy_texture` to the installed driver; `false`
    /// exactly when no driver is installed.
    pub fn destroy_texture(&mut self, id: u32) -> (r: bool)
        ensures
            !r <==> old(self).driver() is None,
            old(self).driver() is None ==> *final(self) == *old(self),
            old(self).driver() matches Some(d0) ==> {
                &&& final(self).driver() matches Some(d1)
                &&& D::destroy_texture_post(d0, d1, id)
            },
    {
        match &mut self.slot {
            Some(d) => {
                d.destroy_texture(id);
                true
            },
            None => false,
        }
    }

    /// Forwards `next_render_buffer_id` to the installed driver: the
    /// handle and the driver left in the slot are one call of that
    /// driver's own `next_render_buffer_id`.  Nothing exactly when no
    /// driver is installed.
    pub fn next_render_buffer_id(&mut self) -> (r: Option<u32>)
        ensures
            r is None <==> old(self).driver() is None,
            old(self).driver() is None ==> *final(self) == *old(self),
            old(self).driver() matches Some(d0) ==> {
                &&& r matches Some(v)
                &&& final(self).driver() matches Some(d1)
                &&& D::next_render_buffer_id_post(d0, d1, v)
            },
    {
        match &mut self.slot {
            Some(d) => Some(d.next_render_buffer_id()),
            None => None,
        }
    }

    /// Forwards `create_render_buffer` to the installed driver, whose own
    /// promise relates the result and the new slot state to the call.
    /// Nothing exactly when no driver is installed.
    pub fn create_render_buffer(&mut self, id: u32, desc: RenderBufferDesc) -> (r: Option<
        Result<(), BridgeError>,
    >)
        ensures
            r is None <==> old(self).driver() is None,
            old(self).driver() is None ==> *final(self) == *old(self),
            old(self).driver() matches Some(d0) ==> {
                &&& r matches Some(v)
                &&& final(self).driver() matches Some(d1)
                &&& D::create_render_buffer_post(d0, d1, id, desc, v)
            },
    {
        match &mut self.slot {
            Some(d) => Some(d.create_render_buffer(id, desc)),
            None => None,
        }
    }

    /// Forwards `destroy_render_buffer` to the installed driver; `false`
    /// exactly when no driver is installed.
    pub fn destroy_render_buffer(&mut self, id: u32) -> (r: bool)
        ensures
            !r <==> old(self).driver() is None,
            old(self).driver() is None ==> *final(self) == *old(self),
            old(self).driver() matches Some(d0) ==> {
                &&& final(self).driver() matches Some(d1)
                &&& D::destroy_render_buffer_post(d0, d1, id)
            },
    {
        match &mut self.slot {
            Some(d) => {
                d.destroy_render_buffer(id);
                true
            },
            None => false,
        }
    }

    /// Forwards `next_geometry_id` to the installed driver: the handle
    /// and the driver left in the slot are one call of that driver's own
    /// `next_geometry_id`.  Nothing exactly when no driver is installed.
    pub fn next_geometry_id(&mut self) -> (r: Option<u32>)
        ensures
            r is None <==> old(self).driver() is None,
            old(self).driver() is None ==> *final(self) == *old(self),
            old(self).driver() matches Some(d0) ==> {
                &&& r matches Some(v)
                &&& final(self).driver() matches Some(d1)
                &&& D::next_geometry_id_post(d0, d1, v)
            },
    {
        match &mut self.slot {
            Some(d) => Some(d.next_geometry_id()),
            None => None,
        }
    }

    /// Forwards `create_geometry` to the installed driver, whose own
    /// promise relates the result and the new slot state to the call.
    /// Nothing exactly when no driver is installed.
    pub fn create_geometry(
        &mut self,
        id: u32,
        layout: VertexLayout,
        vertices: Vec<u8>,
        indices: Vec<u8>,
    ) -> (r: Option<Result<(), BridgeError>>)
        ensures
            r is None <==> old(self).driver() is None,
            old(self).driver() is None ==> *final(self) == *old(self),
            old(self).driver() matches Some(d0) ==> {
                &&& r matches Some(v)
                &&& final(self).driver() matches Some(d1)
                &&& D::create_geometry_post(d0, d1, id, layout, vertices, indices, v)
            },
    {
        match &mut self.slot {
            Some(d) => Some(d.create_geometry(id, layout, vertices, indices)),
            None => None,
        }
    }

    /// Forwards `update_geometry` to the installed driver, whose own
    /// promise relates the result and the new slot state to the call.
    /// Nothing exactly when no driver is installed.
    pub fn update_geometry(
        &mut self,
        id: u32,
        layout: VertexLayout,
        vertices: Vec<u8>,
        indices: Vec<u8>,
    ) -> (r: Option<Result<(), BridgeError>>)
        ensures
            r is None <==> old(self).driver() is None,
            old(self).driver() is None ==> *final(self) == *old(self),
            old(self).driver() matches Some(d0) ==> {
                &&& r matches Some(v)
                &&& final(self).driver() matches Some(d1)
                &&& D::update_geometry_post(d0, d1, id, layout, vertices, indices, v)
            },
    {
        match &mut self.slot {
            Some(d) => Some(d.update_geometry(id, layout, vertices, indices)),
            None => None,
        }
    }

    /// Forwards `destroy_geometry` to the installed driver; `false`
    /// exactly when no driver is installed.
    pub fn destroy_geometry(&mut self, id: u32) -> (r: bool)
        ensures
            !r <==> old(self).driver() is None,
            old(self).driver() is None ==> *final(self) == *old(self),
            old(self).driver() matches Some(d0) ==> {
                &&& final(self).driver() matches Some(d1)
                &&& D::destroy_geometry_post(d0, d1, id)
            },
    {
        match &mut self.slot {
            Some(d) => {
                d.destroy_geometry(id);
                true
            },
            None => false,
        }
    }

    /// Forwards `update_command_list` to the installed driver, whose own
    /// promise relates the result and the new slot state to the submitted
    /// list.  Nothing exactly when no driver is installed.
    pub fn update_command_list(&mut self, commands: &Vec<GpuCommand>) -> (r: Option<
        Result<(), BridgeError>,
    >)
        ensures
            r is None <==> old(self).driver() is None,
            old(self).driver() is None ==> *final(self) == *old(self),
            old(self).driver() matches Some(d0) ==> {
                &&& r matches Some(v)
                &&& final(self).driver() matches Some(d1)
                &&& D::update_command_list_post(d0, d1, commands@, v)
            },
    {
        match &mut self.slot {
            Some(d) => Some(d.update_command_list(commands)),
            None => None,
        }
    }

    /// Brackets the start of a batch of engine calls.  The engine requires
    /// the entry point to exist; the bridge needs no action here, so this
    /// is an extension point.  `false` exactly when no driver is
    /// installed; the host never changes.
    pub fn begin_synchronize(&mut self) -> (r: bool)
        ensures
            !r <==> old(self).driver() is None,
            *final(self) == *old(self),
    {
        match &self.slot {
            Some(_) => true,
            None => false,
        }
    }

    /// Brackets the end of a batch of engine calls; an extension point
    /// like `begin_synchronize`.  `false` exactly when no driver is
    /// installed; the host never changes.
    pub fn end_synchronize(&mut self) -> (r: bool)
        ensures
            !r <==> old(self).driver() is None,
            *final(self) == *old(self),
    {
        match &self.slot {
            Some(_) => true,
            None => false,
        }
    }
}

} // verus!
