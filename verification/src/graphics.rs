//! The graphics context: the adapter that the host asks for, the fixed
//! pipeline of the background scene, and the scene pass of a frame.

use crate::surface::Extent;
use vstd::prelude::*;

verus! {

/// Which kind of adapter the host prefers.
#[derive(Clone, Copy, Debug, PartialEq, Eq, Structural)]
pub enum PowerPreference {
    Unspecified,
    LowPower,
    HighPerformance,
}

/// What the host asks of the adapter that it opens its device on.
#[derive(Clone, Copy, Debug, PartialEq, Eq, Structural)]
pub struct AdapterRequest {
    pub power: PowerPreference,
    /// Accept only a software fallback adapter.
    pub force_fallback: bool,
    /// Accept only an adapter that can present to the host's surface.
    pub surface_compatible: bool,
}

impl AdapterRequest {
    /// A high-performance hardware adapter that can present to the surface.
    pub open spec fn preferred() -> AdapterRequest {
        AdapterRequest {
            power: PowerPreference::HighPerformance,
            force_fallback: false,
            surface_compatible: true,
        }
    }

    pub fn new() -> (request: AdapterRequest)
        ensures
            request == AdapterRequest::preferred(),
    {
        AdapterRequest {
            power: PowerPreference::HighPerformance,
            force_fallback: false,
            surface_compatible: true,
        }
    }
}

/// How vertices are assembled into primitives.
#[derive(Clone, Copy, Debug, PartialEq, Eq, Structural)]
pub enum Topology {
    PointList,
    LineList,
    LineStrip,
    TriangleList,
    TriangleStrip,
}

/// Which winding marks the front of a triangle.
#[derive(Clone, Copy, Debug, PartialEq, Eq, Structural)]
pub enum FrontFace {
    CounterClockwise,
    Clockwise,
}

/// Which triangles are discarded by the side they show.
#[derive(Clone, Copy, Debug, PartialEq, Eq, Structural)]
pub enum Culling {
    Off,
    Front,
    Back,
}

/// How a fragment is combined with what the target holds.
#[derive(Clone, Copy, Debug, PartialEq, Eq, Structural)]
pub enum Blending {
    /// The fragment replaces the target's colour and alpha.
    Replace,
    AlphaBlending,
    PremultipliedAlphaBlending,
}

/// The render pipeline of the background scene. It is compiled for one pixel
/// format and is of no use with a surface of another.
#[derive(Clone, Copy, Debug, PartialEq, Eq)]
pub struct ScenePipeline {
    pub format: wgpu::TextureFormat,
    pub vertex_buffers: u32,
    pub topology: Topology,
    pub front_face: FrontFace,
    pub culling: Culling,
    pub sample_count: u32,
    pub blending: Blending,
}

impl ScenePipeline {
    /// The scene pipeline for a target format: procedural geometry without
    /// vertex buffers, drawn as a triangle strip with back faces culled, one
    /// sample per pixel, fragments replacing the target.
    pub open spec fn scene(format: wgpu::TextureFormat) -> ScenePipeline {
        ScenePipeline {
            format,
            vertex_buffers: 0,
            topology: Topology::TriangleStrip,
            front_face: FrontFace::CounterClockwise,
            culling: Culling::Back,
            sample_count: 1,
            blending: Blending::Replace,
        }
    }

    pub fn new(format: wgpu::TextureFormat) -> (pipeline: ScenePipeline)
        ensures
            pipeline == ScenePipeline::scene(format),
    {
        ScenePipeline {
            format,
            vertex_buffers: 0,
            topology: Topology::TriangleStrip,
            front_face: FrontFace::CounterClockwise,
            culling: Culling::Back,
            sample_count: 1,
            blending: Blending::Replace,
        }
    }
}

/// A colour with eight bits per channel.
#[derive(Clone, Copy, Debug, PartialEq, Eq, Structural)]
pub struct ClearColor {
    pub red: u8,
    pub green: u8,
    pub blue: u8,
    pub alpha: u8,
}

/// Number of vertices of the scene's full-viewport primitive.
pub const SCENE_VERTICES: u32 = 4;

/// Number of instances of the scene's primitive.
pub const SCENE_INSTANCES: u32 = 1;

/// The first render pass of a frame. It clears the target, binds the scene
/// pipeline and draws the full-viewport primitive.
#[derive(Clone, Copy, Debug, PartialEq, Eq, Structural)]
pub struct ScenePass {
    /// Size of the target image.
    pub target: Extent,
    pub clear: ClearColor,
    pub vertices: u32,
    pub instances: u32,
}

impl ScenePass {
    /// The scene pass over a target of the given size: cleared to opaque
    /// black, four vertices, one instance.
    pub open spec fn over(target: Extent) -> ScenePass {
        ScenePass {
            target,
            clear: ClearColor { red: 0, green: 0, blue: 0, alpha: 255 },
            vertices: SCENE_VERTICES,
            instances: SCENE_INSTANCES,
        }
    }

    pub fn new(target: Extent) -> (pass: ScenePass)
        ensures
            pass == ScenePass::over(target),
    {
        ScenePass {
            target,
            clear: ClearColor { red: 0, green: 0, blue: 0, alpha: 255 },
            vertices: SCENE_VERTICES,
            instances: SCENE_INSTANCES,
        }
    }
}

} // verus!
