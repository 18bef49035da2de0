//! The material abstraction: shader text, uniform bindings, pipeline state
//! and draw-order classification.
use crate::camera::Camera;
use crate::math::Vec3;
use vstd::prelude::*;

verus! {

/// Which channels a draw writes to.
#[derive(Clone, Copy, Debug, PartialEq, Eq, Structural)]
pub struct WriteMask {
    pub red: bool,
    pub green: bool,
    pub blue: bool,
    pub alpha: bool,
    pub depth: bool,
}

pub open spec fn color_and_depth_mask() -> WriteMask {
    WriteMask { red: true, green: true, blue: true, alpha: true, depth: true }
}

pub open spec fn depth_only_mask() -> WriteMask {
    WriteMask { red: false, green: false, blue: false, alpha: false, depth: true }
}

impl WriteMask {
    /// Writes every color channel and depth.
    pub fn color_and_depth() -> (r: WriteMask)
        ensures
            r == color_and_depth_mask(),
    {
        WriteMask { red: true, green: true, blue: true, alpha: true, depth: true }
    }

    /// Writes depth and no color channel.
    pub fn depth_only() -> (r: WriteMask)
        ensures
            r == depth_only_mask(),
    {
        WriteMask { red: false, green: false, blue: false, alpha: false, depth: true }
    }
}

impl Default for WriteMask {
    fn default() -> (r: WriteMask)
        ensures
            r == color_and_depth_mask(),
    {
        WriteMask::color_and_depth()
    }
}

/// How a fragment's depth is compared with the stored depth.
#[derive(Clone, Copy, Debug, PartialEq, Eq, Structural)]
pub enum DepthTest {
    Always,
    Never,
    Less,
    LessOrEqual,
    Equal,
    NotEqual,
    Greater,
    GreaterOrEqual,
}

/// A factor of a blend equation.
#[derive(Clone, Copy, Debug, PartialEq, Eq, Structural)]
pub enum BlendMultiplier {
    Zero,
    One,
    SrcColor,
    OneMinusSrcColor,
    SrcAlpha,
    OneMinusSrcAlpha,
    DstAlpha,
    OneMinusDstAlpha,
}

/// How the weighted source and destination combine.
#[derive(Clone, Copy, Debug, PartialEq, Eq, Structural)]
pub enum BlendEquation {
    Add,
    Subtract,
    ReverseSubtract,
    Min,
    Max,
}

/// The blend mode of a draw.
#[derive(Clone, Copy, Debug, PartialEq, Eq, Structural)]
pub enum Blend {
    /// The fragment replaces what is stored.
    Disabled,
    /// Alpha transparency: `source * alpha + destination * (1 - alpha)`.
    Transparency,
    Custom { source: BlendMultiplier, destination: BlendMultiplier, equation: BlendEquation },
}

/// The fixed pipeline state of a material, applied before each of its draws.
#[derive(Clone, Copy, Debug, PartialEq, Eq, Structural)]
pub struct RenderStates {
    pub write_mask: WriteMask,
    pub depth_test: DepthTest,
    pub blend: Blend,
}

pub open spec fn default_render_states() -> RenderStates {
    RenderStates {
        write_mask: color_and_depth_mask(),
        depth_test: DepthTest::Less,
        blend: Blend::Disabled,
    }
}

impl RenderStates {
    /// Every channel written, nearer fragments pass, no blending.
    pub fn new() -> (r: RenderStates)
        ensures
            r == default_render_states(),
    {
        RenderStates {
            write_mask: WriteMask::color_and_depth(),
            depth_test: DepthTest::Less,
            blend: Blend::Disabled,
        }
    }
}

impl Default for RenderStates {
    fn default() -> (r: RenderStates)
        ensures
            r == default_render_states(),
    {
        RenderStates::new()
    }
}

/// Draw-order classification: opaque materials draw first.
#[derive(Clone, Copy, Debug, PartialEq, Eq, Structural)]
pub enum MaterialType {
    Opaque,
    Transparent,
}

/// The interpolated vertex attributes that a fragment shader reads.
#[derive(Clone, Copy, Debug, PartialEq, Eq, Structural)]
pub struct FragmentAttributes {
    pub position: bool,
    pub normal: bool,
    pub tangents: bool,
    pub uv: bool,
    pub color: bool,
}

pub open spec fn no_attributes() -> FragmentAttributes {
    FragmentAttributes { position: false, normal: false, tangents: false, uv: false, color: false }
}

impl FragmentAttributes {
    pub fn none() -> (r: FragmentAttributes)
        ensures
            r == no_attributes(),
    {
        FragmentAttributes {
            position: false,
            normal: false,
            tangents: false,
            uv: false,
            color: false,
        }
    }
}

/// The fragment stage of a program and the attributes it needs.
pub struct FragmentShader {
    pub source: String,
    pub attributes: FragmentAttributes,
}

/// A uniform value bound to a linked program, in binding order.
#[derive(Clone, Copy, Debug, PartialEq, Eq, Structural)]
pub enum Uniform {
    /// The uniforms of the light at this index, bound by the light itself.
    Light(u32),
    CameraPosition(Vec3),
    Size(Vec3),
    /// A 3-D texture sampler, by texture id.
    Texture3D(u64),
}

impl Uniform {
    /// The uniform's name in shader text; a light binds its own names.
    pub fn name(&self) -> (r: &'static str)
        ensures
            self is Light ==> r@ == "light"@,
            self is CameraPosition ==> r@ == "cameraPosition"@,
            self is Size ==> r@ == "size"@,
            self is Texture3D ==> r@ == "tex"@,
    {
        match self {
            Uniform::Light(_) => "light",
            Uniform::CameraPosition(_) => "cameraPosition",
            Uniform::Size(_) => "size",
            Uniform::Texture3D(_) => "tex",
        }
    }
}

/// The light uniforms `0..count`, one per light, in order.
pub open spec fn light_uniforms(count: nat) -> Seq<Uniform> {
    Seq::new(count, |i: int| Uniform::Light(i as u32))
}

/// The uniforms of lights `0..count`.
pub fn bind_lights(count: u32) -> (r: Vec<Uniform>)
    ensures
        r@ == light_uniforms(count as nat),
{
    let mut r: Vec<Uniform> = Vec::new();
    let mut i: u32 = 0;
    while i < count
        invariant
            i <= count,
            r@ == light_uniforms(i as nat),
        decreases count - i,
    {
        r.push(Uniform::Light(i));
        i = i + 1;
        assert(r@ =~= light_uniforms(i as nat));
    }
    r
}

/// What every material provides to the renderer.
pub trait Material {
    /// The full fragment source, given the lighting-model source.
    spec fn spec_fragment_source(&self, lighting_source: Seq<char>) -> Seq<char>;

    spec fn spec_attributes(&self) -> FragmentAttributes;

    /// The uniforms bound for a camera at `camera_position` and `light_count` lights.
    spec fn spec_uniforms(&self, camera_position: (int, int, int), light_count: nat) -> Seq<
        Uniform,
    >;

    spec fn spec_render_states(&self) -> RenderStates;

    spec fn spec_material_type(&self) -> MaterialType;

    /// The fragment stage, composed from the lighting-model source text.
    fn fragment_shader(&self, lighting_source: &str) -> (r: FragmentShader)
        ensures
            r.source@ == self.spec_fragment_source(lighting_source@),
            r.attributes == self.spec_attributes(),
    ;

    /// The uniform values to bind before a draw, in order.
    fn use_uniforms(&self, camera: &Camera, light_count: u32) -> (r: Vec<Uniform>)
        ensures
            r@ == self.spec_uniforms(camera@.position, light_count as nat),
    ;

    fn render_states(&self) -> (r: RenderStates)
        ensures
            r == self.spec_render_states(),
    ;

    fn material_type(&self) -> (r: MaterialType)
        ensures
            r == self.spec_material_type(),
    ;
}

} // verus!
