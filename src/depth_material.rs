//! A material that writes depth only.
use crate::camera::Camera;
use crate::material::{
    FragmentAttributes, FragmentShader, Material, MaterialType, RenderStates, Uniform,
    WriteMask, default_render_states, depth_only_mask, no_attributes,
};
use vstd::prelude::*;

verus! {

/// A material for depth-only passes (a depth pre-pass, shadow maps): its
/// fragment stage writes no color, and it binds no uniforms.
#[derive(Clone, Copy, Debug, Default)]
pub struct DepthMaterial {}

pub open spec fn depth_render_states() -> RenderStates {
    RenderStates { write_mask: depth_only_mask(), ..default_render_states() }
}

impl DepthMaterial {
    pub fn new() -> (r: DepthMaterial) {
        DepthMaterial {  }
    }
}

impl Material for DepthMaterial {
    open spec fn spec_fragment_source(&self, lighting_source: Seq<char>) -> Seq<char> {
        "void main() {}"@
    }

    open spec fn spec_attributes(&self) -> FragmentAttributes {
        no_attributes()
    }

    open spec fn spec_uniforms(&self, camera_position: (int, int, int), light_count: nat) -> Seq<
        Uniform,
    > {
        Seq::empty()
    }

    open spec fn spec_render_states(&self) -> RenderStates {
        depth_render_states()
    }

    open spec fn spec_material_type(&self) -> MaterialType {
        MaterialType::Opaque
    }

    fn fragment_shader(&self, lighting_source: &str) -> (r: FragmentShader) {
        FragmentShader { source: "void main() {}".to_owned(), attributes: FragmentAttributes::none() }
    }

    fn use_uniforms(&self, camera: &Camera, light_count: u32) -> (r: Vec<Uniform>) {
        Vec::new()
    }

    fn render_states(&self) -> (r: RenderStates) {
        RenderStates { write_mask: WriteMask::depth_only(), ..RenderStates::new() }
    }

    fn material_type(&self) -> (r: MaterialType) {
        MaterialType::Opaque
    }
}

} // verus!
