//! The pool of three GPU-resident buffers, described by size and usage.

use crate::graphics::structures::{Resource, GLOBALS_SIZE, VERTEX_SIZE, VIEW_SIZE};
use vstd::prelude::*;

verus! {

/// The ways in which a buffer may be used.
#[derive(Clone, Copy, Debug, PartialEq, Eq)]
pub struct BufferUsages {
    /// Bound as a uniform.
    pub uniform: bool,
    /// Bound as storage.
    pub storage: bool,
    /// Read by vertex assembly.
    pub vertex: bool,
    /// Overwritten from the host.
    pub copy_dst: bool,
}

/// The description of one buffer: which resource it holds, its size in
/// bytes and its usages.
#[derive(Clone, Copy, Debug, PartialEq, Eq)]
pub struct Buffer {
    pub resource: Resource,
    pub size: u64,
    pub usage: BufferUsages,
    pub mapped_at_creation: bool,
}

/// The three buffers of the renderer.
#[derive(Clone, Copy, Debug, PartialEq, Eq)]
pub struct Buffers {
    pub globals: Buffer,
    pub view: Buffer,
    pub vertices: Buffer,
}

/// The usages of the buffer of `resource`. Every buffer can be overwritten
/// from the host; the uniforms are bound as uniforms, the vertices feed
/// vertex assembly and are bound as storage.
pub open spec fn usage_of(resource: Resource) -> BufferUsages {
    match resource {
        Resource::Globals => BufferUsages {
            uniform: true,
            storage: false,
            vertex: false,
            copy_dst: true,
        },
        Resource::View => BufferUsages {
            uniform: true,
            storage: false,
            vertex: false,
            copy_dst: true,
        },
        Resource::Vertices => BufferUsages {
            uniform: false,
            storage: true,
            vertex: true,
            copy_dst: true,
        },
    }
}

/// The size in bytes of the buffer of `resource` in a pool made for
/// `vertex_count` vertices.
pub open spec fn byte_size_of(resource: Resource, vertex_count: u64) -> int {
    match resource {
        Resource::Globals => GLOBALS_SIZE as int,
        Resource::View => VIEW_SIZE as int,
        Resource::Vertices => VERTEX_SIZE * vertex_count,
    }
}

/// The description of the buffer of `resource` in a pool made for
/// `vertex_count` vertices.
pub open spec fn buffer_of(resource: Resource, vertex_count: u64) -> Buffer
    recommends
        byte_size_of(resource, vertex_count) <= u64::MAX,
{
    Buffer {
        resource,
        size: byte_size_of(resource, vertex_count) as u64,
        usage: usage_of(resource),
        mapped_at_creation: false,
    }
}

impl Buffers {
    /// Whether this is the pool made for `vertex_count` vertices.
    pub open spec fn holds(&self, vertex_count: u64) -> bool {
        &&& self.globals == buffer_of(Resource::Globals, vertex_count)
        &&& self.view == buffer_of(Resource::View, vertex_count)
        &&& self.vertices == buffer_of(Resource::Vertices, vertex_count)
    }

    /// Whether this is the pool made for some number of vertices: the
    /// vertex buffer holds whole records and nothing else.
    pub open spec fn well_formed(&self) -> bool {
        self.holds(self.vertices.size / VERTEX_SIZE)
    }

    /// Describes the pool for `vertex_count` vertices. The byte size of the
    /// vertex buffer has to fit in 64 bits.
    pub fn new(vertex_count: u64) -> (out: Self)
        requires
            VERTEX_SIZE * vertex_count <= u64::MAX,
        ensures
            out.holds(vertex_count),
            out.well_formed(),
    {
        Buffers {
            globals: Buffer {
                resource: Resource::Globals,
                size: GLOBALS_SIZE,
                usage: BufferUsages { uniform: true, storage: false, vertex: false, copy_dst: true },
                mapped_at_creation: false,
            },
            view: Buffer {
                resource: Resource::View,
                size: VIEW_SIZE,
                usage: BufferUsages { uniform: true, storage: false, vertex: false, copy_dst: true },
                mapped_at_creation: false,
            },
            vertices: Buffer {
                resource: Resource::Vertices,
                size: VERTEX_SIZE * vertex_count,
                usage: BufferUsages { uniform: false, storage: true, vertex: true, copy_dst: true },
                mapped_at_creation: false,
            },
        }
    }
}

} // verus!
