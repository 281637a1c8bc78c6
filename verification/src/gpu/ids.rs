//! Issues the integer handles the engine uses to name textures, render
//! buffers and geometries.
//!
//! Texture and geometry handles count upwards from 1 and are never reused.
//! Render-buffer handles are recycled: destroying a render buffer returns
//! its handle to a free list, and allocation serves the free list before it
//! draws a fresh handle from a counter.

use vstd::prelude::*;

verus! {

/// Handle source for the three resource kinds of the bridge.
pub struct IdAllocator {
    next_texture_id: u32,
    next_geometry_id: u32,
    next_render_buffer_id: u32,
    free_render_buffer_ids: Vec<u32>,
}

impl IdAllocator {
    /// The texture handle the next `next_texture_id` call returns.
    pub closed spec fn texture_counter(&self) -> u32 {
        self.next_texture_id
    }

    /// The geometry handle the next `next_geometry_id` call returns.
    pub closed spec fn geometry_counter(&self) -> u32 {
        self.next_geometry_id
    }

    /// The render-buffer handle `next_render_buffer_id` returns once the
    /// free list is empty.
    pub closed spec fn render_buffer_counter(&self) -> u32 {
        self.next_render_buffer_id
    }

    /// The render-buffer handles returned by `free_render_buffer_id` and
    /// not yet reissued, oldest first.
    pub closed spec fn free_list(&self) -> Seq<u32> {
        self.free_render_buffer_ids@
    }

    /// A fresh allocator: texture and geometry handles start at 1; the
    /// render-buffer counter starts at 0 (which render buffer is the
    /// primary output is the embedder's convention, not a fixed handle),
    /// and the free list starts empty.
    pub fn new() -> (r: IdAllocator)
        ensures
            r.texture_counter() == 1u32,
            r.geometry_counter() == 1u32,
            r.render_buffer_counter() == 0u32,
            r.free_list() == Seq::<u32>::empty(),
    {
        IdAllocator {
            next_texture_id: 1,
            next_geometry_id: 1,
            next_render_buffer_id: 0,
            free_render_buffer_ids: Vec::new(),
        }
    }

    /// Issues the next texture handle.  Handles strictly increase and are
    /// never reissued; once the 32-bit handle space is exhausted the
    /// counter stays pinned at its maximum instead of wrapping.
    pub fn next_texture_id(&mut self) -> (r: u32)
        ensures
            r == old(self).texture_counter(),
            final(self).texture_counter() == if old(self).texture_counter() < u32::MAX {
                (old(self).texture_counter() + 1) as u32
            } else {
                u32::MAX
            },
            final(self).geometry_counter() == old(self).geometry_counter(),
            final(self).render_buffer_counter() == old(self).render_buffer_counter(),
            final(self).free_list() == old(self).free_list(),
    {
        let next = self.next_texture_id;
        if self.next_texture_id < u32::MAX {
            self.next_texture_id = self.next_texture_id + 1;
        }
        next
    }

    /// Issues the next geometry handle, with the same counting rule as
    /// `next_texture_id`.
    pub fn next_geometry_id(&mut self) -> (r: u32)
        ensures
            r == old(self).geometry_counter(),
            final(self).geometry_counter() == if old(self).geometry_counter() < u32::MAX {
                (old(self).geometry_counter() + 1) as u32
            } else {
                u32::MAX
            },
            final(self).texture_counter() == old(self).texture_counter(),
            final(self).render_buffer_counter() == old(self).render_buffer_counter(),
            final(self).free_list() == old(self).free_list(),
    {
        let next = self.next_geometry_id;
        if self.next_geometry_id < u32::MAX {
            self.next_geometry_id = self.next_geometry_id + 1;
        }
        next
    }

    /// Issues the next render-buffer handle.  While any destroyed handle is
    /// waiting on the free list, one of those is reissued and the fresh
    /// counter is left untouched; only an empty free list draws a fresh
    /// handle.
    pub fn next_render_buffer_id(&mut self) -> (r: u32)
        ensures
            final(self).texture_counter() == old(self).texture_counter(),
            final(self).geometry_counter() == old(self).geometry_counter(),
            old(self).free_list().len() > 0 ==> {
                &&& r == old(self).free_list()[0]
                &&& old(self).free_list().contains(r)
                &&& final(self).free_list() == old(self).free_list().update(
                    0,
                    old(self).free_list().last(),
                ).drop_last()
                &&& final(self).render_buffer_counter() == old(self).render_buffer_counter()
            },
            old(self).free_list().len() == 0 ==> {
                &&& r == old(self).render_buffer_counter()
                &&& final(self).free_list() == old(self).free_list()
                &&& final(self).render_buffer_counter() == if old(
                    self,
                ).render_buffer_counter() < u32::MAX {
                    (old(self).render_buffer_counter() + 1) as u32
                } else {
                    u32::MAX
                }
            },
    {
        if self.free_render_buffer_ids.len() > 0 {
            self.free_render_buffer_ids.swap_remove(0)
        } else {
            let next = self.next_render_buffer_id;
            if self.next_render_buffer_id < u32::MAX {
                self.next_render_buffer_id = self.next_render_buffer_id + 1;
            }
            next
        }
    }

    /// Returns a destroyed render buffer's handle to the free list, making
    /// it available for reissue.
    pub fn free_render_buffer_id(&mut self, id: u32)
        ensures
            final(self).free_list() == old(self).free_list().push(id),
            final(self).texture_counter() == old(self).texture_counter(),
            final(self).geometry_counter() == old(self).geometry_counter(),
            final(self).render_buffer_counter() == old(self).render_buffer_counter(),
    {
        self.free_render_buffer_ids.push(id);
    }
}

} // verus!
