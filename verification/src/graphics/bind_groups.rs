//! Binds the buffers of the pool to the declared slots: one set of three
//! bindings per usage context, each over the whole of its buffer.

use crate::graphics::bind_group_layouts::{
    layout_of, BindGroupLayout, BindGroupLayouts, BindGroupUsage, BufferBindingType,
};
use crate::graphics::buffers::{buffer_of, byte_size_of, Buffer, Buffers};
use crate::graphics::structures::Resource;
use vstd::prelude::*;

verus! {

/// A range of a buffer: from `offset` for `size` bytes, or to the end of the
/// buffer where `size` is `None`.
#[derive(Clone, Copy, Debug, PartialEq, Eq)]
pub struct BufferBinding {
    pub buffer: Buffer,
    pub offset: u64,
    pub size: Option<u64>,
}

/// What stands at one binding number of a bind group.
#[derive(Clone, Copy, Debug, PartialEq, Eq)]
pub struct BindGroupEntry {
    pub binding: u32,
    pub resource: BufferBinding,
}

/// A slot declaration together with the buffer range bound to it.
#[derive(Clone, Copy, Debug, PartialEq, Eq)]
pub struct BindGroup {
    pub layout: BindGroupLayout,
    pub entry: BindGroupEntry,
}

/// The three bind groups of one usage context.
#[derive(Clone, Copy, Debug, PartialEq, Eq)]
pub struct BindGroups {
    pub globals: BindGroup,
    pub bview: BindGroup,
    pub vertices: BindGroup,
}

/// The bind group that puts the whole of `buffer` at binding 0 of `layout`.
pub open spec fn bind_whole(layout: BindGroupLayout, buffer: Buffer) -> BindGroup {
    BindGroup {
        layout,
        entry: BindGroupEntry {
            binding: 0,
            resource: BufferBinding { buffer, offset: 0, size: None },
        },
    }
}

impl BufferBinding {
    /// Whether the range lies inside its buffer.
    pub open spec fn in_bounds(&self) -> bool {
        match self.size {
            None => self.offset <= self.buffer.size,
            Some(size) => self.offset + size <= self.buffer.size,
        }
    }
}

impl BindGroup {
    /// Whether the bound buffer fits the declaration: the binding numbers
    /// agree, the buffer is that of the declared resource, it has the usage
    /// that the declared access needs, and the range lies inside it.
    pub open spec fn valid(&self) -> bool {
        &&& self.entry.binding == self.layout.entry.binding
        &&& self.entry.resource.buffer.resource == self.layout.resource
        &&& match self.layout.entry.ty {
            BufferBindingType::Uniform => self.entry.resource.buffer.usage.uniform,
            BufferBindingType::Storage { read_only } => self.entry.resource.buffer.usage.storage,
        }
        &&& self.entry.resource.in_bounds()
    }
}

impl BindGroups {
    /// The three bind groups in slot order: globals, view, vertices.
    pub open spec fn slot_order(&self) -> Seq<BindGroup> {
        seq![self.globals, self.bview, self.vertices]
    }

    /// Whether these are the bindings of `buffers` to `bind_group_layouts`.
    pub open spec fn binds(&self, bind_group_layouts: BindGroupLayouts, buffers: Buffers) -> bool {
        &&& self.globals == bind_whole(bind_group_layouts.globals, buffers.globals)
        &&& self.bview == bind_whole(bind_group_layouts.view, buffers.view)
        &&& self.vertices == bind_whole(bind_group_layouts.vertices, buffers.vertices)
    }

    /// Binds each buffer of the pool, whole, to the slot of the same name.
    pub fn new(bind_group_layouts: &BindGroupLayouts, buffers: &Buffers) -> (out: Self)
        ensures
            out.binds(*bind_group_layouts, *buffers),
    {
        BindGroups {
            globals: BindGroup {
                layout: bind_group_layouts.globals,
                entry: BindGroupEntry {
                    binding: 0,
                    resource: BufferBinding { buffer: buffers.globals, offset: 0, size: None },
                },
            },
            bview: BindGroup {
                layout: bind_group_layouts.view,
                entry: BindGroupEntry {
                    binding: 0,
                    resource: BufferBinding { buffer: buffers.view, offset: 0, size: None },
                },
            },
            vertices: BindGroup {
                layout: bind_group_layouts.vertices,
                entry: BindGroupEntry {
                    binding: 0,
                    resource: BufferBinding { buffer: buffers.vertices, offset: 0, size: None },
                },
            },
        }
    }

    /// The three bind groups in slot order: globals, view, vertices.
    pub fn as_slice(&self) -> (out: [&BindGroup; 3])
        ensures
            out@.map_values(|g: &BindGroup| *g) == self.slot_order(),
    {
        [&self.globals, &self.bview, &self.vertices]
    }
}

/// Binding the pool's buffer of a resource to the slot declared for that
/// resource is valid in either usage context, whatever the vertex count.
pub proof fn lemma_pool_binding_valid(resource: Resource, usage: BindGroupUsage, vertex_count: u64)
    requires
        byte_size_of(resource, vertex_count) <= u64::MAX,
    ensures
        bind_whole(layout_of(resource, usage), buffer_of(resource, vertex_count)).valid(),
{
}

/// The compute and the render bind group of a resource are over the same
/// buffer range; they differ in the declaration alone.
pub proof fn lemma_contexts_share_buffers(resource: Resource, buffer: Buffer)
    ensures
        bind_whole(layout_of(resource, BindGroupUsage::Compute), buffer).entry == bind_whole(
            layout_of(resource, BindGroupUsage::Render),
            buffer,
        ).entry,
{
}

} // verus!
