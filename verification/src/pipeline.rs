//! Compiled graphics pipelines.

use vstd::prelude::*;

verus! {

/// A compiled pipeline: the shader stages it runs, the per-vertex memory
/// layout it reads, the bind group layout it expects and the pixel format
/// it writes.
#[derive(Debug)]
pub struct Pipeline {
    id: usize,
    vertex_module: usize,
    fragment_module: usize,
    bind_group_layout: Option<usize>,
    stride: u64,
    attributes: Vec<wgpu::VertexAttribute>,
    target_format: wgpu::TextureFormat,
}

/// What a pipeline is compiled from.
pub struct PipelineDescriptor {
    /// Handle of the vertex stage.
    pub vertex_module: usize,
    /// Handle of the fragment stage.
    pub fragment_module: usize,
    /// Handle of the bind group layout, where the pipeline takes one.
    pub bind_group_layout: Option<usize>,
    /// Bytes from one vertex to the next.
    pub stride: u64,
    /// The attribute table of a vertex.
    pub attributes: Vec<wgpu::VertexAttribute>,
    /// Pixel format of the fragment output.
    pub target_format: wgpu::TextureFormat,
}

impl Pipeline {
    /// The handle under which the backend keeps the pipeline.
    pub closed spec fn handle(self) -> usize {
        self.id
    }

    pub closed spec fn vertex_module(self) -> usize {
        self.vertex_module
    }

    pub closed spec fn fragment_module(self) -> usize {
        self.fragment_module
    }

    pub closed spec fn bind_group_layout(self) -> Option<usize> {
        self.bind_group_layout
    }

    /// Bytes from one vertex to the next.
    pub closed spec fn stride(self) -> u64 {
        self.stride
    }

    /// The attribute table of a vertex.
    pub closed spec fn attributes(self) -> Seq<wgpu::VertexAttribute> {
        self.attributes@
    }

    /// Pixel format of the fragment output.
    pub closed spec fn target_format(self) -> wgpu::TextureFormat {
        self.target_format
    }

    /// A pipeline under handle `id`, compiled from `descriptor`.
    pub fn new(id: usize, descriptor: PipelineDescriptor) -> (pipeline: Pipeline)
        ensures
            pipeline.handle() == id,
            pipeline.vertex_module() == descriptor.vertex_module,
            pipeline.fragment_module() == descriptor.fragment_module,
            pipeline.bind_group_layout() == descriptor.bind_group_layout,
            pipeline.stride() == descriptor.stride,
            pipeline.attributes() == descriptor.attributes@,
            pipeline.target_format() == descriptor.target_format,
    {
        Pipeline {
            id,
            vertex_module: descriptor.vertex_module,
            fragment_module: descriptor.fragment_module,
            bind_group_layout: descriptor.bind_group_layout,
            stride: descriptor.stride,
            attributes: descriptor.attributes,
            target_format: descriptor.target_format,
        }
    }

    pub fn pipeline(&self) -> (id: usize)
        ensures
            id == self.handle(),
    {
        self.id
    }

    pub fn vertex_stage(&self) -> (id: usize)
        ensures
            id == self.vertex_module(),
    {
        self.vertex_module
    }

    pub fn fragment_stage(&self) -> (id: usize)
        ensures
            id == self.fragment_module(),
    {
        self.fragment_module
    }

    pub fn layout(&self) -> (id: Option<usize>)
        ensures
            id == self.bind_group_layout(),
    {
        self.bind_group_layout
    }

    pub fn array_stride(&self) -> (stride: u64)
        ensures
            stride == self.stride(),
    {
        self.stride
    }

    pub fn vertex_attributes(&self) -> (table: &[wgpu::VertexAttribute])
        ensures
            table@ == self.attributes(),
    {
        self.attributes.as_slice()
    }

    pub fn format(&self) -> (format: wgpu::TextureFormat)
        ensures
            format == self.target_format(),
    {
        self.target_format
    }
}

} // verus!
