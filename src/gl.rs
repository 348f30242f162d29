//! The OpenGL drawing path: program and buffer object names, and the
//! interleaved attribute layouts handed to `glVertexAttribPointer`.
use vstd::prelude::*;

verus! {

/// Size in bytes of one `GLfloat`.
pub const FLOAT_SIZE: i32 = 4;

/// A linked GL program.
#[derive(Debug)]
pub struct Shader {
    id: u32,
}

impl Shader {
    pub closed spec fn spec_id(&self) -> u32 {
        self.id
    }

    /// Wraps the name of a linked program.
    pub fn from_program(id: u32) -> (r: Shader)
        ensures
            r.spec_id() == id,
    {
        Shader { id }
    }

    /// The program name, for `glUseProgram` and uniform lookups.
    pub fn id(&self) -> (r: u32)
        ensures
            r == self.spec_id(),
    {
        self.id
    }
}

/// One `glVertexAttribPointer` call: attribute `index` reads `size` floats,
/// records being `stride` bytes apart, starting `offset` bytes in.
#[derive(Clone, Copy, Debug, PartialEq, Eq, Structural)]
pub struct AttribPointer {
    pub index: u32,
    pub size: i32,
    pub stride: i32,
    pub offset: i32,
}

/// The number of floats before attribute `i`.
pub open spec fn floats_before(components: Seq<i32>, i: int) -> int
    decreases i,
{
    if i <= 0 {
        0
    } else {
        floats_before(components, i - 1) + components[i - 1]
    }
}

/// The layout of interleaved records whose attributes have the given numbers
/// of float components, in order.
pub open spec fn layout_spec(components: Seq<i32>) -> Seq<AttribPointer> {
    Seq::new(components.len(), |i: int| AttribPointer {
        index: i as u32,
        size: components[i],
        stride: (FLOAT_SIZE * floats_before(components, components.len() as int)) as i32,
        offset: (FLOAT_SIZE * floats_before(components, i)) as i32,
    })
}

proof fn lemma_floats_before_monotone(components: Seq<i32>, i: int, j: int)
    requires
        0 <= i <= j <= components.len(),
        forall|k: int| 0 <= k < components.len() ==> 1 <= #[trigger] components[k] <= 4,
    ensures
        floats_before(components, i) <= floats_before(components, j),
        floats_before(components, j) <= 4 * j,
        0 <= floats_before(components, i),
    decreases j,
{
    if j > 0 {
        if i == j {
            lemma_floats_before_monotone(components, 0, j - 1);
        } else {
            lemma_floats_before_monotone(components, i, j - 1);
        }
    }
}

/// The attribute pointers of interleaved float records: attribute `i` has
/// `components[i]` floats and starts after the floats of those before it.
pub fn interleaved_layout(components: &Vec<i32>) -> (r: Vec<AttribPointer>)
    requires
        components@.len() <= 16,
        forall|k: int| 0 <= k < components@.len() ==> 1 <= #[trigger] components@[k] <= 4,
    ensures
        r@ == layout_spec(components@),
{
    let n = components.len();
    let mut total: i32 = 0;
    let mut i: usize = 0;
    while i < n
        invariant
            n == components@.len() <= 16,
            forall|k: int| 0 <= k < components@.len() ==> 1 <= #[trigger] components@[k] <= 4,
            i <= n,
            total == floats_before(components@, i as int),
            0 <= total <= 4 * i,
        decreases n - i,
    {
        proof {
            lemma_floats_before_monotone(components@, 0, i as int);
        }
        total = total + components[i];
        i = i + 1;
    }
    let stride = FLOAT_SIZE * total;
    let mut r: Vec<AttribPointer> = Vec::with_capacity(n);
    let mut before: i32 = 0;
    let mut j: usize = 0;
    while j < n
        invariant
            n == components@.len() <= 16,
            forall|k: int| 0 <= k < components@.len() ==> 1 <= #[trigger] components@[k] <= 4,
            stride == FLOAT_SIZE * floats_before(components@, n as int),
            j <= n,
            before == floats_before(components@, j as int),
            0 <= before <= 4 * j,
            r@ == layout_spec(components@).subrange(0, j as int),
        decreases n - j,
    {
        r.push(AttribPointer { index: j as u32, size: components[j], stride, offset: FLOAT_SIZE * before });
        proof {
            lemma_floats_before_monotone(components@, 0, j as int);
            assert(r@ =~= layout_spec(components@).subrange(0, j + 1));
        }
        before = before + components[j];
        j = j + 1;
    }
    proof {
        assert(r@ =~= layout_spec(components@));
    }
    r
}

/// The size in bytes of `count` elements of `element_size` bytes, as the
/// signed size GL takes, or `None` when it does not fit.
pub fn gl_buffer_size(count: usize, element_size: usize) -> (r: Option<isize>)
    ensures
        r is Some <==> count * element_size <= isize::MAX,
        r matches Some(s) ==> s == count * element_size,
{
    match count.checked_mul(element_size) {
        Some(bytes) => {
            if bytes <= isize::MAX as usize {
                Some(bytes as isize)
            } else {
                None
            }
        },
        None => None,
    }
}

/// A vertex array with its vertex buffer, drawn with `glDrawArrays`.
#[derive(Debug)]
pub struct Renderer {
    vao: u32,
    vbo: u32,
}

impl Renderer {
    pub closed spec fn spec_vao(&self) -> u32 {
        self.vao
    }

    pub closed spec fn spec_vbo(&self) -> u32 {
        self.vbo
    }

    /// Takes the names of a filled vertex array and its buffer.
    pub fn new(vao: u32, vbo: u32) -> (r: Renderer)
        ensures
            r.spec_vao() == vao,
            r.spec_vbo() == vbo,
    {
        Renderer { vao, vbo }
    }

    pub fn vao(&self) -> (r: u32)
        ensures
            r == self.spec_vao(),
    {
        self.vao
    }

    pub fn vbo(&self) -> (r: u32)
        ensures
            r == self.spec_vbo(),
    {
        self.vbo
    }

    /// The vertex count for `glDrawArrays`, or `None` when it does not fit a
    /// `GLsizei`.
    pub fn draw_count(vertex_count: usize) -> (r: Option<i32>)
        ensures
            r is Some <==> vertex_count <= i32::MAX,
            r matches Some(n) ==> n == vertex_count,
    {
        if vertex_count <= i32::MAX as usize {
            Some(vertex_count as i32)
        } else {
            None
        }
    }
}

/// An indexed, textured object: program, vertex array, vertex and index
/// buffers, texture, and the number of indices to draw.
#[derive(Debug)]
pub struct RenderObject {
    shader: Shader,
    vao: u32,
    vbo: u32,
    ebo: u32,
    texture_id: u32,
    index_count: i32,
}

impl RenderObject {
    pub closed spec fn spec_index_count(&self) -> i32 {
        self.index_count
    }

    pub closed spec fn spec_shader(&self) -> &Shader {
        &self.shader
    }

    pub closed spec fn spec_objects(&self) -> (u32, u32, u32, u32) {
        (self.vao, self.vbo, self.ebo, self.texture_id)
    }

    /// Takes the GL objects of a filled object and the number of indices in
    /// its index buffer; `None` when that number does not fit a `GLsizei`.
    pub fn new(shader: Shader, vao: u32, vbo: u32, ebo: u32, texture_id: u32, index_count: usize) -> (r: Option<RenderObject>)
        ensures
            r is Some <==> index_count <= i32::MAX,
            r matches Some(o) ==> o.spec_index_count() == index_count && o.spec_shader().spec_id() == shader.spec_id()
                && o.spec_objects() == (vao, vbo, ebo, texture_id),
    {
        if index_count > i32::MAX as usize {
            return None;
        }
        Some(RenderObject { shader, vao, vbo, ebo, texture_id, index_count: index_count as i32 })
    }

    pub fn shader(&self) -> (r: &Shader)
        ensures
            r == self.spec_shader(),
    {
        &self.shader
    }

    /// Vertex array, vertex buffer, index buffer and texture names.
    pub fn objects(&self) -> (r: (u32, u32, u32, u32))
        ensures
            r == self.spec_objects(),
    {
        (self.vao, self.vbo, self.ebo, self.texture_id)
    }

    pub fn index_count(&self) -> (r: i32)
        ensures
            r == self.spec_index_count(),
    {
        self.index_count
    }
}

} // verus!
