//! A loaded mesh as the acceleration-structure builder sees it.
//!
//! Loading a mesh means device uploads of its vertex and index buffers and
//! descriptor writes; the builder only reads what ends up here: buffer
//! addresses, element counts and formats, and the shader-visible view
//! handles of the index and color buffers. The caller fills one of these in
//! after its uploads.

use vstd::prelude::*;

verus! {

use crate::view::Srv;

/// What the acceleration-structure builder reads of a loaded mesh.
pub struct Mesh {
    pub vertex_count: usize,
    pub position_buffer_address: u64,
    pub position_stride: u32,
    pub position_format: u32,
    pub index_count: usize,
    pub index_buffer_address: u64,
    pub index_format: u32,
    pub index_srv: Srv,
    pub color_srv: Srv,
}

impl Mesh {
    pub fn vertex_count(&self) -> (r: usize)
        ensures
            r == self.vertex_count,
    {
        self.vertex_count
    }

    pub fn index_count(&self) -> (r: usize)
        ensures
            r == self.index_count,
    {
        self.index_count
    }

    pub fn position_format(&self) -> (r: u32)
        ensures
            r == self.position_format,
    {
        self.position_format
    }

    pub fn index_srv(&self) -> (r: &Srv)
        ensures
            r == &self.index_srv,
    {
        &self.index_srv
    }

    pub fn color_srv(&self) -> (r: &Srv)
        ensures
            r == &self.color_srv,
    {
        &self.color_srv
    }
}

} // verus!
