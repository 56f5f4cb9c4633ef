use vstd::prelude::*;

verus! {

/// Which outline pass a pipeline variant draws.
#[derive(Clone, Copy, Debug, PartialEq, Eq, Hash, Structural)]
pub enum PassType {
    Stencil,
    Opaque,
    Transparent,
}

/// How the outline's depth interacts with the scene's depth.
/// `Invalid` means the mode has not been propagated to the entity yet this frame.
#[derive(Clone, Copy, Debug, PartialEq, Eq, Hash, Structural)]
pub enum DepthMode {
    Invalid,
    Flat,
    Real,
}

/// Primitive topology of a mesh.
#[derive(Clone, Copy, Debug, PartialEq, Eq, Hash, Structural)]
pub enum Topology {
    PointList,
    LineList,
    LineStrip,
    TriangleList,
    TriangleStrip,
}

/// Specialization key of the outline pipeline: one value per axis.
/// Two keys are equal exactly when every axis is equal.
#[derive(Clone, Copy, Debug, PartialEq, Eq, Hash, Structural)]
pub struct PipelineKey {
    pub msaa_samples: u32,
    pub pass_type: PassType,
    pub topology: Topology,
    pub depth_mode: DepthMode,
    pub offset_zero: bool,
    pub hdr_format: bool,
    pub opengl_workaround: bool,
}

/// The neutral key: one sample, stencil pass, point list, no depth mode, all flags off.
pub open spec fn neutral_key() -> PipelineKey {
    PipelineKey {
        msaa_samples: 1,
        pass_type: PassType::Stencil,
        topology: Topology::PointList,
        depth_mode: DepthMode::Invalid,
        offset_zero: false,
        hdr_format: false,
        opengl_workaround: false,
    }
}

impl PipelineKey {
    /// The neutral key.
    pub fn new() -> (r: PipelineKey)
        ensures
            r == neutral_key(),
    {
        PipelineKey {
            msaa_samples: 1,
            pass_type: PassType::Stencil,
            topology: Topology::PointList,
            depth_mode: DepthMode::Invalid,
            offset_zero: false,
            hdr_format: false,
            opengl_workaround: false,
        }
    }

    /// This key with the MSAA sample count replaced.
    pub fn with_msaa(self, samples: u32) -> (r: PipelineKey)
        ensures
            r == (PipelineKey { msaa_samples: samples, ..self }),
    {
        PipelineKey { msaa_samples: samples, ..self }
    }

    /// This key with the pass type replaced.
    pub fn with_pass_type(self, pass_type: PassType) -> (r: PipelineKey)
        ensures
            r == (PipelineKey { pass_type, ..self }),
    {
        PipelineKey { pass_type, ..self }
    }

    /// This key with the primitive topology replaced.
    pub fn with_primitive_topology(self, topology: Topology) -> (r: PipelineKey)
        ensures
            r == (PipelineKey { topology, ..self }),
    {
        PipelineKey { topology, ..self }
    }

    /// This key with the depth mode replaced.
    pub fn with_depth_mode(self, depth_mode: DepthMode) -> (r: PipelineKey)
        ensures
            r == (PipelineKey { depth_mode, ..self }),
    {
        PipelineKey { depth_mode, ..self }
    }

    /// This key with the zero-offset flag replaced.
    pub fn with_offset_zero(self, offset_zero: bool) -> (r: PipelineKey)
        ensures
            r == (PipelineKey { offset_zero, ..self }),
    {
        PipelineKey { offset_zero, ..self }
    }

    /// This key with the HDR-target flag replaced.
    pub fn with_hdr_format(self, hdr_format: bool) -> (r: PipelineKey)
        ensures
            r == (PipelineKey { hdr_format, ..self }),
    {
        PipelineKey { hdr_format, ..self }
    }

    /// This key with the OpenGL-workaround flag replaced.
    pub fn with_opengl_workaround(self, opengl_workaround: bool) -> (r: PipelineKey)
        ensures
            r == (PipelineKey { opengl_workaround, ..self }),
    {
        PipelineKey { opengl_workaround, ..self }
    }
}

} // verus!
