//! Which binding slots exist and how a shader may access each, for the
//! compute and the render context. Nothing here refers to a buffer.

use crate::graphics::structures::Resource;
use vstd::prelude::*;

verus! {

/// The context that a set of layouts is declared for.
#[derive(Clone, Copy, Debug, PartialEq, Eq)]
pub enum BindGroupUsage {
    Compute,
    Render,
}

/// The shader stages that can see a binding.
#[derive(Clone, Copy, Debug, PartialEq, Eq)]
pub struct ShaderStages {
    pub vertex: bool,
    pub fragment: bool,
    pub compute: bool,
}

/// How a buffer is presented to the shader.
#[derive(Clone, Copy, Debug, PartialEq, Eq)]
pub enum BufferBindingType {
    /// Small, read-only to the shader.
    Uniform,
    /// Storage, read-only or read-write to the shader.
    Storage { read_only: bool },
}

/// One entry of a layout: a binding number and the access it grants.
#[derive(Clone, Copy, Debug, PartialEq, Eq)]
pub struct BindGroupLayoutEntry {
    pub binding: u32,
    pub visibility: ShaderStages,
    pub ty: BufferBindingType,
    pub has_dynamic_offset: bool,
    pub min_binding_size: Option<u64>,
    pub count: Option<u32>,
}

/// The declaration of one binding slot: the resource it is for and its
/// single entry.
#[derive(Clone, Copy, Debug, PartialEq, Eq)]
pub struct BindGroupLayout {
    pub resource: Resource,
    pub entry: BindGroupLayoutEntry,
}

/// The three slot declarations of one usage context.
#[derive(Clone, Copy, Debug, PartialEq, Eq)]
pub struct BindGroupLayouts {
    pub globals: BindGroupLayout,
    pub view: BindGroupLayout,
    pub vertices: BindGroupLayout,
}

/// The stages that see the bindings of `usage`: the compute stage alone, or
/// the vertex and fragment stages.
pub open spec fn visibility_of(usage: BindGroupUsage) -> ShaderStages {
    match usage {
        BindGroupUsage::Compute => ShaderStages { vertex: false, fragment: false, compute: true },
        BindGroupUsage::Render => ShaderStages { vertex: true, fragment: true, compute: false },
    }
}

/// How `resource` is bound under `usage`: globals and view as uniforms, the
/// vertices as storage that only the compute context may write.
pub open spec fn binding_type_of(resource: Resource, usage: BindGroupUsage) -> BufferBindingType {
    match resource {
        Resource::Globals => BufferBindingType::Uniform,
        Resource::View => BufferBindingType::Uniform,
        Resource::Vertices => BufferBindingType::Storage {
            read_only: usage == BindGroupUsage::Render,
        },
    }
}

/// The declaration of the slot of `resource` under `usage`.
pub open spec fn layout_of(resource: Resource, usage: BindGroupUsage) -> BindGroupLayout {
    BindGroupLayout {
        resource,
        entry: BindGroupLayoutEntry {
            binding: 0,
            visibility: visibility_of(usage),
            ty: binding_type_of(resource, usage),
            has_dynamic_offset: false,
            min_binding_size: None,
            count: None,
        },
    }
}

impl BindGroupLayout {
    /// Whether a shader may write through this slot.
    pub open spec fn writable(&self) -> bool {
        self.entry.ty == (BufferBindingType::Storage { read_only: false })
    }
}

impl BindGroupLayouts {
    /// The three declarations in slot order: globals, view, vertices.
    pub open spec fn slot_order(&self) -> Seq<BindGroupLayout> {
        seq![self.globals, self.view, self.vertices]
    }

    /// Whether these are the declarations for `usage`.
    pub open spec fn declares(&self, usage: BindGroupUsage) -> bool {
        &&& self.globals == layout_of(Resource::Globals, usage)
        &&& self.view == layout_of(Resource::View, usage)
        &&& self.vertices == layout_of(Resource::Vertices, usage)
    }

    /// Declares the three slots for `usage`.
    pub fn new(usage: BindGroupUsage) -> (out: Self)
        ensures
            out.declares(usage),
    {
        let (visibility, storage_ro) = match usage {
            BindGroupUsage::Compute => (
                ShaderStages { vertex: false, fragment: false, compute: true },
                false,
            ),
            BindGroupUsage::Render => (
                ShaderStages { vertex: true, fragment: true, compute: false },
                true,
            ),
        };

        BindGroupLayouts {
            globals: BindGroupLayout {
                resource: Resource::Globals,
                entry: BindGroupLayoutEntry {
                    binding: 0,
                    visibility,
                    ty: BufferBindingType::Uniform,
                    has_dynamic_offset: false,
                    min_binding_size: None,
                    count: None,
                },
            },
            view: BindGroupLayout {
                resource: Resource::View,
                entry: BindGroupLayoutEntry {
                    binding: 0,
                    visibility,
                    ty: BufferBindingType::Uniform,
                    has_dynamic_offset: false,
                    min_binding_size: None,
                    count: None,
                },
            },
            vertices: BindGroupLayout {
                resource: Resource::Vertices,
                entry: BindGroupLayoutEntry {
                    binding: 0,
                    visibility,
                    ty: BufferBindingType::Storage { read_only: storage_ro },
                    has_dynamic_offset: false,
                    min_binding_size: None,
                    count: None,
                },
            },
        }
    }

    /// The three declarations in slot order: globals, view, vertices.
    pub fn as_slice(&self) -> (out: [&BindGroupLayout; 3])
        ensures
            out@.map_values(|l: &BindGroupLayout| *l) == self.slot_order(),
    {
        [&self.globals, &self.view, &self.vertices]
    }

    /// Only the compute context may write, and only to the vertices.
    pub proof fn lemma_only_compute_writes_vertices(resource: Resource, usage: BindGroupUsage)
        ensures
            layout_of(resource, usage).writable() <==> (resource == Resource::Vertices && usage
                == BindGroupUsage::Compute),
    {
    }
}

} // verus!
