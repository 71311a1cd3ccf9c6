use frame_host::graphics::{
    AdapterRequest, Blending, ClearColor, Culling, FrontFace, ScenePipeline, PowerPreference,
    ScenePass, Topology, SCENE_INSTANCES, SCENE_VERTICES,
};
use frame_host::surface::Extent;
use wgpu::TextureFormat;

#[test]
fn adapter_request_asks_for_high_performance_hardware() {
    let request = AdapterRequest::new();
    assert_eq!(
        request,
        AdapterRequest {
            power: PowerPreference::HighPerformance,
            force_fallback: false,
            surface_compatible: true,
        }
    );
}

#[test]
fn scene_pipeline_is_the_fixed_one() {
    let pipeline = ScenePipeline::new(TextureFormat::Bgra8UnormSrgb);
    assert_eq!(pipeline.format, TextureFormat::Bgra8UnormSrgb);
    assert_eq!(pipeline.vertex_buffers, 0);
    assert_eq!(pipeline.topology, Topology::TriangleStrip);
    assert_eq!(pipeline.front_face, FrontFace::CounterClockwise);
    assert_eq!(pipeline.culling, Culling::Back);
    assert_eq!(pipeline.sample_count, 1);
    assert_eq!(pipeline.blending, Blending::Replace);
}

#[test]
fn scene_pipeline_follows_the_format() {
    let a = ScenePipeline::new(TextureFormat::Rgba8Unorm);
    let b = ScenePipeline::new(TextureFormat::Bgra8Unorm);
    assert_eq!(a.format, TextureFormat::Rgba8Unorm);
    assert_eq!(b.format, TextureFormat::Bgra8Unorm);
    assert_ne!(a, b);
}

#[test]
fn scene_pass_clears_to_black_and_draws_four_vertices() {
    let pass = ScenePass::new(Extent::new(800, 600));
    assert_eq!(pass.target, Extent::new(800, 600));
    assert_eq!(pass.clear, ClearColor { red: 0, green: 0, blue: 0, alpha: 255 });
    assert_eq!(pass.vertices, 4);
    assert_eq!(pass.instances, 1);
    assert_eq!(SCENE_VERTICES, 4);
    assert_eq!(SCENE_INSTANCES, 1);
}
