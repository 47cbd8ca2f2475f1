//! Materials, cameras, lights and models, and the uniforms that drawing them
//! uploads to the shader program.
//!
//! Every scalar is of the generic component type `F`: vectors are arrays of
//! three or four components, matrices arrays of sixteen in column-major order.
use vstd::prelude::*;

verus! {

/// The value of the `light.type` uniform for a point light.
pub const POINT_LIGHT_TYPE: u32 = 0;

/// Surface properties of a shader program.
pub struct Material<F> {
    /// The linked program's handle.
    pub shader_id: u32,
    pub ambient: [F; 3],
    pub diffuse: [F; 3],
    pub specular: [F; 3],
    /// Specular exponent.
    pub gloss: u32,
}

/// A viewer: its view and projection matrices and where it stands.
pub struct Camera<F> {
    /// Vertical field of view, in degrees.
    pub fov: F,
    pub view: [F; 16],
    pub projection: [F; 16],
    pub position: [F; 3],
}

/// A light that shines from one point, fading with distance.
pub struct PointLight<F> {
    pub color: [F; 3],
    /// The point, in homogeneous coordinates.
    pub position: [F; 4],
    pub range: F,
}

/// A light that shines from one direction everywhere.
pub struct DirectionalLight<F> {
    pub color: [F; 3],
    pub strength: F,
    pub direction: [F; 4],
}

/// The one light of a scene.
pub enum Light<F> {
    Point(PointLight<F>),
    Directional(DirectionalLight<F>),
}

/// A value for one uniform of a shader program.
#[derive(Debug, PartialEq)]
pub enum UniformValue<F> {
    Mat4([F; 16]),
    Vec3([F; 3]),
    Vec4([F; 4]),
    Float(F),
    UInt(u32),
}

/// A named uniform and the value it is set to.
#[derive(Debug, PartialEq)]
pub struct Uniform<F> {
    pub name: &'static str,
    pub value: UniformValue<F>,
}

/// A uniform seen as its name's characters and its value.
pub open spec fn entry<F>(u: Uniform<F>) -> (Seq<char>, UniformValue<F>) {
    (u.name@, u.value)
}

/// A list of uniforms seen as names and values.
pub open spec fn entries<F>(s: Seq<Uniform<F>>) -> Seq<(Seq<char>, UniformValue<F>)> {
    s.map_values(|u: Uniform<F>| entry(u))
}

/// The uniforms that describe a material.
pub open spec fn material_entries<F>(m: Material<F>) -> Seq<(Seq<char>, UniformValue<F>)> {
    seq![
        ("material.diffuse"@, UniformValue::Vec3(m.diffuse)),
        ("material.specular"@, UniformValue::Vec3(m.specular)),
        ("material.ambient"@, UniformValue::Vec3(m.ambient)),
        ("material.gloss"@, UniformValue::UInt(m.gloss)),
    ]
}

/// The uniforms that describe a light: a point light sets its type, colour,
/// position and range; a directional light its strength, colour and direction.
pub open spec fn light_entries<F>(l: Light<F>) -> Seq<(Seq<char>, UniformValue<F>)> {
    match l {
        Light::Point(p) => seq![
            ("light.type"@, UniformValue::UInt(POINT_LIGHT_TYPE)),
            ("light.color"@, UniformValue::Vec3(p.color)),
            ("light.vector"@, UniformValue::Vec4(p.position)),
            ("light.range"@, UniformValue::Float(p.range)),
        ],
        Light::Directional(d) => seq![
            ("light.strength"@, UniformValue::Float(d.strength)),
            ("light.color"@, UniformValue::Vec3(d.color)),
            ("light.vector"@, UniformValue::Vec4(d.direction)),
        ],
    }
}

/// The uniforms that describe a camera.
pub open spec fn camera_entries<F>(c: Camera<F>) -> Seq<(Seq<char>, UniformValue<F>)> {
    seq![
        ("viewPos"@, UniformValue::Vec3(c.position)),
        ("view"@, UniformValue::Mat4(c.view)),
        ("projection"@, UniformValue::Mat4(c.projection)),
    ]
}

/// Everything a frame uploads before drawing with a material, in order.
pub open spec fn frame_entries<F>(m: Material<F>, c: Camera<F>, l: Light<F>) -> Seq<
    (Seq<char>, UniformValue<F>),
> {
    material_entries(m) + light_entries(l) + camera_entries(c)
}

impl<F: Copy> Material<F> {
    /// A material for the linked program `shader_id`.
    pub fn new(shader_id: u32, ambient: [F; 3], diffuse: [F; 3], specular: [F; 3], gloss: u32) -> (r:
        Material<F>)
        ensures
            r == (Material { shader_id, ambient, diffuse, specular, gloss }),
    {
        Material { shader_id, ambient, diffuse, specular, gloss }
    }

    /// The uniforms to upload before a frame is drawn with this material, as
    /// seen from `camera` and lit by `light`: the material's, then the
    /// light's, then the camera's.
    pub fn push_uniforms(&self, camera: &Camera<F>, light: &Light<F>) -> (r: Vec<Uniform<F>>)
        ensures
            entries(r@) == frame_entries(*self, *camera, *light),
    {
        let mut r: Vec<Uniform<F>> = Vec::new();
        r.push(Uniform { name: "material.diffuse", value: UniformValue::Vec3(self.diffuse) });
        r.push(Uniform { name: "material.specular", value: UniformValue::Vec3(self.specular) });
        r.push(Uniform { name: "material.ambient", value: UniformValue::Vec3(self.ambient) });
        r.push(Uniform { name: "material.gloss", value: UniformValue::UInt(self.gloss) });
        match light {
            Light::Point(point) => {
                r.push(Uniform { name: "light.type", value: UniformValue::UInt(POINT_LIGHT_TYPE) });
                r.push(Uniform { name: "light.color", value: UniformValue::Vec3(point.color) });
                r.push(Uniform { name: "light.vector", value: UniformValue::Vec4(point.position) });
                r.push(Uniform { name: "light.range", value: UniformValue::Float(point.range) });
            },
            Light::Directional(directional) => {
                r.push(
                    Uniform { name: "light.strength", value: UniformValue::Float(directional.strength) },
                );
                r.push(Uniform { name: "light.color", value: UniformValue::Vec3(directional.color) });
                r.push(
                    Uniform { name: "light.vector", value: UniformValue::Vec4(directional.direction) },
                );
            },
        }
        r.push(Uniform { name: "viewPos", value: UniformValue::Vec3(camera.position) });
        r.push(Uniform { name: "view", value: UniformValue::Mat4(camera.view) });
        r.push(Uniform { name: "projection", value: UniformValue::Mat4(camera.projection) });
        assert(entries(r@) =~= frame_entries(*self, *camera, *light));
        r
    }
}

/// A mesh uploaded to the GPU, drawn with a material under its own transform.
pub struct Model<'a, F> {
    pub material: &'a Material<F>,
    /// Model-to-world matrix.
    pub transform: [F; 16],
    /// The triangle indices, as uploaded to the index buffer.
    pub indices: Vec<u32>,
    /// Location of the `transform` uniform in the material's program.
    pub transform_id: i32,
    /// Vertex array handle.
    pub vao: u32,
    /// Vertex buffer handle.
    pub vbo: u32,
}

/// What drawing one model asks of the driver: make `program` current, set
/// `transform`, bind the vertex array `vao`, and draw `count` indices as
/// triangles from the start of the index buffer.
#[derive(Debug, PartialEq)]
pub struct DrawCall<F> {
    pub program: u32,
    pub transform: Uniform<F>,
    pub vao: u32,
    pub count: i32,
}

impl<'a, F: Copy> Model<'a, F> {
    /// A model over buffers already uploaded: `vao` and `vbo` hold its
    /// vertices, `indices` its triangles, and `transform_id` is where its
    /// material's program takes the `transform` uniform.
    pub fn new(
        material: &'a Material<F>,
        transform: [F; 16],
        indices: Vec<u32>,
        transform_id: i32,
        vao: u32,
        vbo: u32,
    ) -> (r: Model<'a, F>)
        ensures
            r.material == material,
            r.transform == transform,
            r.indices@ == indices@,
            r.transform_id == transform_id,
            r.vao == vao,
            r.vbo == vbo,
    {
        Model { material, transform, indices, transform_id, vao, vbo }
    }

    /// The draw call for this model; `None` where it has more indices than a
    /// draw call can count.
    pub fn draw_call(&self) -> (r: Option<DrawCall<F>>)
        ensures
            r is Some <==> self.indices@.len() <= i32::MAX,
            r matches Some(call) ==> {
                &&& call.program == self.material.shader_id
                &&& entry(call.transform) == ("transform"@, UniformValue::Mat4(self.transform))
                &&& call.vao == self.vao
                &&& call.count == self.indices@.len()
            },
    {
        let n = self.indices.len();
        if n > i32::MAX as usize {
            return None;
        }
        Some(
            DrawCall {
                program: self.material.shader_id,
                transform: Uniform { name: "transform", value: UniformValue::Mat4(self.transform) },
                vao: self.vao,
                count: n as i32,
            },
        )
    }
}

} // verus!
