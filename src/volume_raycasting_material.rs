//! A material that ray-marches a 3-D texture.
use crate::camera::Camera;
use crate::material::{
    FragmentAttributes, FragmentShader, Material, MaterialType, RenderStates, Uniform, Blend,
    bind_lights, default_render_states, light_uniforms, no_attributes,
};
use crate::math::{Vec3, lemma_to_vec3, to_vec3};
use std::sync::Arc;
use vstd::prelude::*;
use vstd::string::StringExecFns;

verus! {

/// The fragment stage of volume ray-marching. It reads the interpolated
/// fragment position and the uniforms `cameraPosition`, `size` and `tex`.
pub const VOLUME_RAYCASTING_SOURCE: &'static str = "
uniform vec3 cameraPosition;
uniform vec3 size;
uniform sampler3D tex;

in vec3 pos;

layout (location = 0) out vec4 outColor;

void main() {
    int steps = 200;
    vec3 direction = normalize(pos - cameraPosition);
    vec3 stride = direction * length(size) / float(steps);
    vec3 p = pos;
    vec4 color = vec4(0);
    for (int i = 0; i < steps; i++) {
        vec3 uvw = p / size + vec3(1) / float(2);
        if (any(lessThan(uvw, vec3(0))) || any(greaterThan(uvw, vec3(1)))) {
            break;
        }
        vec4 voxel = texture(tex, uvw);
        color.rgb += (float(1) - color.a) * voxel.a * voxel.rgb;
        color.a += (float(1) - color.a) * voxel.a;
        p += stride;
    }
    outColor = color;
}
";

/// How light is modelled in the lighting source that a material composes with.
#[derive(Clone, Copy, Debug, PartialEq, Eq, Structural)]
pub enum LightingModel {
    Phong,
    Blinn,
    Cook,
}

/// A handle to a 3-D texture uploaded to the graphics device.
#[derive(Clone, Copy, Debug, PartialEq, Eq, Structural)]
pub struct Texture3D {
    pub id: u64,
    pub width: u32,
    pub height: u32,
    pub depth: u32,
}

/// Voxel samples on the CPU, row by row, then layer by layer.
pub struct CpuTexture3D {
    pub width: u32,
    pub height: u32,
    pub depth: u32,
    pub data: Vec<u8>,
}

/// A dense voxel grid and the world-space extent it fills.
pub struct CpuVoxelGrid {
    pub voxels: CpuTexture3D,
    pub size: Vec3,
}

/// Renders the volume in `voxels` by ray-marching. Apply it to a cube
/// centred at the origin and scaled by `size`: the cube's fragment positions
/// are where the rays enter.
#[derive(Clone, Debug)]
pub struct VolumeRaycastingMaterial {
    /// The voxel data, shared with every clone of this material.
    pub voxels: Arc<Texture3D>,
    /// The size of the cube; the texture fills all of it.
    pub size: Vec3,
    pub lighting_model: LightingModel,
}

pub open spec fn transparency_render_states() -> RenderStates {
    RenderStates { blend: Blend::Transparency, ..default_render_states() }
}

pub open spec fn position_only() -> FragmentAttributes {
    FragmentAttributes { position: true, ..no_attributes() }
}

impl VolumeRaycastingMaterial {
    /// The material for a voxel grid whose samples were uploaded as `voxels`:
    /// it copies the grid's physical size.
    pub fn from_cpu_voxel_grid(voxels: Texture3D, cpu_voxel_grid: &CpuVoxelGrid) -> (r: Self)
        ensures
            *r.voxels == voxels,
            r.size == cpu_voxel_grid.size,
            r.lighting_model == LightingModel::Blinn,
    {
        VolumeRaycastingMaterial {
            voxels: Arc::new(voxels),
            size: cpu_voxel_grid.size,
            lighting_model: LightingModel::Blinn,
        }
    }
}

impl Material for VolumeRaycastingMaterial {
    open spec fn spec_fragment_source(&self, lighting_source: Seq<char>) -> Seq<char> {
        lighting_source + VOLUME_RAYCASTING_SOURCE@
    }

    open spec fn spec_attributes(&self) -> FragmentAttributes {
        position_only()
    }

    open spec fn spec_uniforms(&self, camera_position: (int, int, int), light_count: nat) -> Seq<
        Uniform,
    > {
        light_uniforms(light_count) + seq![
            Uniform::CameraPosition(to_vec3(camera_position)),
            Uniform::Size(self.size),
            Uniform::Texture3D(self.voxels.id),
        ]
    }

    open spec fn spec_render_states(&self) -> RenderStates {
        transparency_render_states()
    }

    open spec fn spec_material_type(&self) -> MaterialType {
        MaterialType::Transparent
    }

    fn fragment_shader(&self, lighting_source: &str) -> (r: FragmentShader) {
        let mut source = lighting_source.to_owned();
        source.append(VOLUME_RAYCASTING_SOURCE);
        FragmentShader {
            source,
            attributes: FragmentAttributes { position: true, ..FragmentAttributes::none() },
        }
    }

    fn use_uniforms(&self, camera: &Camera, light_count: u32) -> (r: Vec<Uniform>) {
        let mut r = bind_lights(light_count);
        let position = camera.position();
        proof {
            lemma_to_vec3(position);
        }
        r.push(Uniform::CameraPosition(position));
        r.push(Uniform::Size(self.size));
        r.push(Uniform::Texture3D(self.voxels.id));
        assert(r@ =~= self.spec_uniforms(camera@.position, light_count as nat));
        r
    }

    fn render_states(&self) -> (r: RenderStates) {
        RenderStates { blend: Blend::Transparency, ..RenderStates::new() }
    }

    fn material_type(&self) -> (r: MaterialType) {
        MaterialType::Transparent
    }
}

/// A material built from a voxel grid binds the grid's physical size,
/// unchanged, as its `size` uniform, after one uniform per light and the
/// camera position.
pub proof fn lemma_voxel_grid_size_uniform(
    material: VolumeRaycastingMaterial,
    grid: CpuVoxelGrid,
    camera_position: (int, int, int),
    light_count: nat,
)
    requires
        material.size == grid.size,
    ensures
        material.spec_uniforms(camera_position, light_count)[light_count + 1int] == Uniform::Size(
            grid.size,
        ),
        material.spec_uniforms(camera_position, light_count).len() == light_count + 3,
        forall|i: int|
            0 <= i < light_count + 3 && #[trigger] material.spec_uniforms(
                camera_position,
                light_count,
            )[i] is Size ==> i == light_count + 1,
{
}

} // verus!
