use vstd::prelude::*;

verus! {

/// The format of one vertex attribute as the shaders read it.
#[derive(Clone, Copy, Debug, PartialEq, Eq, Structural)]
pub enum AttributeFormat {
    /// Two 32-bit floats.
    Float32x2,
    /// One 32-bit unsigned integer.
    Uint32,
}

/// Size in bytes of an attribute of the given format.
pub open spec fn format_size(f: AttributeFormat) -> nat {
    match f {
        AttributeFormat::Float32x2 => 8,
        AttributeFormat::Uint32 => 4,
    }
}

/// One attribute of the particle vertex: where it lies in the vertex and
/// at which shader location it is bound.
#[derive(Clone, Copy, Debug, PartialEq, Eq, Structural)]
pub struct VertexAttribute {
    pub format: AttributeFormat,
    pub offset: u64,
    pub shader_location: u32,
}

/// How the vertex buffer advances: once per vertex, or once per instance.
#[derive(Clone, Copy, Debug, PartialEq, Eq, Structural)]
pub enum StepMode {
    Vertex,
    Instance,
}

/// The layout of a particle in the vertex buffer: the distance between
/// consecutive particles, how the buffer advances and the attributes of
/// each particle.
pub struct VertexLayout {
    pub array_stride: u64,
    pub step_mode: StepMode,
    pub attributes: Vec<VertexAttribute>,
}

/// The fields of a particle, in memory order: position, velocity,
/// acceleration, flag and padding.
pub open spec fn particle_fields() -> Seq<AttributeFormat> {
    seq![
        AttributeFormat::Float32x2,
        AttributeFormat::Float32x2,
        AttributeFormat::Float32x2,
        AttributeFormat::Uint32,
        AttributeFormat::Uint32,
    ]
}

/// Byte offset of field `i` when the fields `fs` are laid out one after
/// another without gaps (for `i == fs.len()`, the total size).
pub open spec fn field_offset(fs: Seq<AttributeFormat>, i: int) -> nat
    decreases i,
{
    if i <= 0 {
        0
    } else {
        field_offset(fs, i - 1) + format_size(fs[i - 1])
    }
}

impl AttributeFormat {
    /// Size in bytes of an attribute of this format.
    pub fn size(&self) -> (r: u64)
        ensures
            r == format_size(*self),
    {
        match self {
            AttributeFormat::Float32x2 => 8,
            AttributeFormat::Uint32 => 4,
        }
    }
}

fn particle_field_formats() -> (r: Vec<AttributeFormat>)
    ensures
        r@ == particle_fields(),
{
    vec![
        AttributeFormat::Float32x2,
        AttributeFormat::Float32x2,
        AttributeFormat::Float32x2,
        AttributeFormat::Uint32,
        AttributeFormat::Uint32,
    ]
}

proof fn lemma_particle_offsets()
    ensures
        field_offset(particle_fields(), 0) == 0,
        field_offset(particle_fields(), 1) == 8,
        field_offset(particle_fields(), 2) == 16,
        field_offset(particle_fields(), 3) == 24,
        field_offset(particle_fields(), 4) == 28,
        field_offset(particle_fields(), 5) == 32,
{
    reveal_with_fuel(field_offset, 6);
}

/// The vertex-buffer layout of a particle: field `i` is bound at shader
/// location `i`, the fields follow one another without gaps, and the
/// stride is the size of the whole particle (32 bytes); the buffer
/// advances one particle per vertex.
pub fn vertex_desc() -> (r: VertexLayout)
    ensures
        r.array_stride == field_offset(particle_fields(), 5),
        r.array_stride == 32,
        r.step_mode == StepMode::Vertex,
        r.attributes@ == seq![
            VertexAttribute { format: AttributeFormat::Float32x2, offset: 0, shader_location: 0 },
            VertexAttribute { format: AttributeFormat::Float32x2, offset: 8, shader_location: 1 },
            VertexAttribute { format: AttributeFormat::Float32x2, offset: 16, shader_location: 2 },
            VertexAttribute { format: AttributeFormat::Uint32, offset: 24, shader_location: 3 },
            VertexAttribute { format: AttributeFormat::Uint32, offset: 28, shader_location: 4 },
        ],
        r.attributes@.len() == particle_fields().len(),
        forall|i: int|
            0 <= i < r.attributes@.len() ==> {
                &&& (#[trigger] r.attributes@[i]).format == particle_fields()[i]
                &&& r.attributes@[i].offset == field_offset(particle_fields(), i)
                &&& r.attributes@[i].shader_location == i
            },
{
    let fields = particle_field_formats();
    let mut attributes: Vec<VertexAttribute> = Vec::new();
    let mut offset: u64 = 0;
    proof {
        lemma_particle_offsets();
    }
    for i in 0..fields.len()
        invariant
            fields@ == particle_fields(),
            offset == field_offset(particle_fields(), i as int),
            attributes@.len() == i,
            forall|j: int|
                0 <= j < i ==> {
                    &&& (#[trigger] attributes@[j]).format == particle_fields()[j]
                    &&& attributes@[j].offset == field_offset(particle_fields(), j)
                    &&& attributes@[j].shader_location == j
                },
    {
        proof {
            lemma_particle_offsets();
        }
        let format = fields[i];
        attributes.push(VertexAttribute { format, offset, shader_location: i as u32 });
        offset = offset + format.size();
    }
    proof {
        lemma_particle_offsets();
        assert(attributes@ =~= seq![
            VertexAttribute { format: AttributeFormat::Float32x2, offset: 0, shader_location: 0 },
            VertexAttribute { format: AttributeFormat::Float32x2, offset: 8, shader_location: 1 },
            VertexAttribute { format: AttributeFormat::Float32x2, offset: 16, shader_location: 2 },
            VertexAttribute { format: AttributeFormat::Uint32, offset: 24, shader_location: 3 },
            VertexAttribute { format: AttributeFormat::Uint32, offset: 28, shader_location: 4 },
        ]);
    }
    VertexLayout { array_stride: offset, step_mode: StepMode::Vertex, attributes }
}

/// Field offsets are increasing: each field ends where the next begins,
/// so the fields never overlap and all lie within the total size.
pub proof fn lemma_fields_packed(fs: Seq<AttributeFormat>, i: int, j: int)
    requires
        0 <= i < j <= fs.len(),
    ensures
        field_offset(fs, i) + format_size(fs[i]) <= field_offset(fs, j),
        field_offset(fs, j) <= field_offset(fs, fs.len() as int),
    decreases j - i,
{
    if j > i + 1 {
        lemma_fields_packed(fs, i, j - 1);
        lemma_fields_packed(fs, j - 1, j);
    }
    lemma_offset_monotone(fs, j, fs.len() as int);
}

proof fn lemma_offset_monotone(fs: Seq<AttributeFormat>, i: int, j: int)
    requires
        0 <= i <= j,
    ensures
        field_offset(fs, i) <= field_offset(fs, j),
    decreases j - i,
{
    if i < j {
        lemma_offset_monotone(fs, i, j - 1);
    }
}

} // verus!
