use three_d::camera::{Camera, Viewport};
use three_d::depth_material::DepthMaterial;
use three_d::material::{
    Blend, DepthTest, FragmentAttributes, Material, MaterialType, RenderStates, Uniform, WriteMask,
};
use three_d::math::{Vec3, SCALE};
use three_d::volume_raycasting_material::{
    CpuTexture3D, CpuVoxelGrid, LightingModel, Texture3D, VolumeRaycastingMaterial,
    VOLUME_RAYCASTING_SOURCE,
};

fn camera() -> Camera {
    Camera::new_perspective(
        Viewport { x: 0, y: 0, width: 10, height: 10 },
        Vec3::new(1, 2, 3 * SCALE),
        Vec3::new(0, 0, 0),
        Vec3::new(0, SCALE, 0),
        785_398,
        SCALE / 10,
        100 * SCALE,
    )
    .unwrap()
}

fn volume() -> VolumeRaycastingMaterial {
    let grid = CpuVoxelGrid {
        voxels: CpuTexture3D { width: 2, height: 2, depth: 2, data: vec![0u8; 8] },
        size: Vec3::new(3 * SCALE, 5 * SCALE, 7_250_000),
    };
    let texture = Texture3D { id: 42, width: 2, height: 2, depth: 2 };
    VolumeRaycastingMaterial::from_cpu_voxel_grid(texture, &grid)
}

#[test]
fn default_states() {
    let s = RenderStates::default();
    assert_eq!(s.write_mask, WriteMask::color_and_depth());
    assert_eq!(s.depth_test, DepthTest::Less);
    assert_eq!(s.blend, Blend::Disabled);
    assert_eq!(WriteMask::default(), WriteMask::color_and_depth());
}

#[test]
fn depth_material_writes_depth_only() {
    let m = DepthMaterial::new();
    let s = m.render_states();
    assert_eq!(
        s.write_mask,
        WriteMask { red: false, green: false, blue: false, alpha: false, depth: true }
    );
    assert_eq!(s.blend, Blend::Disabled);
    assert_eq!(m.material_type(), MaterialType::Opaque);
}

#[test]
fn depth_material_shader_ignores_lights() {
    let m = DepthMaterial::new();
    let a = m.fragment_shader("uniform vec3 lightColor;");
    let b = m.fragment_shader("");
    assert_eq!(a.source, "void main() {}");
    assert_eq!(b.source, "void main() {}");
    assert_eq!(a.attributes, FragmentAttributes::none());
    assert!(m.use_uniforms(&camera(), 3).is_empty());
}

#[test]
fn volume_material_is_transparent() {
    let m = volume();
    assert_eq!(m.material_type(), MaterialType::Transparent);
    let s = m.render_states();
    assert_eq!(s.blend, Blend::Transparency);
    assert_eq!(s.write_mask, WriteMask::color_and_depth());
    assert_eq!(s.depth_test, DepthTest::Less);
}

#[test]
fn volume_material_from_grid_copies_size() {
    let m = volume();
    assert_eq!(m.size, Vec3::new(3 * SCALE, 5 * SCALE, 7_250_000));
    assert_eq!(m.voxels.id, 42);
    assert_eq!(m.lighting_model, LightingModel::Blinn);
    let u = m.use_uniforms(&camera(), 0);
    assert_eq!(u[1], Uniform::Size(Vec3::new(3 * SCALE, 5 * SCALE, 7_250_000)));
}

#[test]
fn volume_material_uniform_order() {
    let m = volume();
    let u = m.use_uniforms(&camera(), 2);
    assert_eq!(
        u,
        vec![
            Uniform::Light(0),
            Uniform::Light(1),
            Uniform::CameraPosition(Vec3::new(1, 2, 3 * SCALE)),
            Uniform::Size(m.size),
            Uniform::Texture3D(42),
        ]
    );
    let names: Vec<&str> = u.iter().map(|x| x.name()).collect();
    assert_eq!(names, vec!["light", "light", "cameraPosition", "size", "tex"]);
}

#[test]
fn volume_material_shader_composes_lighting() {
    let m = volume();
    let f = m.fragment_shader("// lights\n");
    assert!(f.source.starts_with("// lights\n"));
    assert_eq!(f.source.len(), "// lights\n".len() + VOLUME_RAYCASTING_SOURCE.len());
    assert!(f.source.ends_with(VOLUME_RAYCASTING_SOURCE));
    assert!(f.attributes.position);
    assert!(!f.attributes.normal && !f.attributes.uv && !f.attributes.color);
}

#[test]
fn clones_share_voxels() {
    let m = volume();
    let c = m.clone();
    assert!(std::sync::Arc::ptr_eq(&m.voxels, &c.voxels));
}
