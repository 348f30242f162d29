//! Little-endian word streams: shader binaries read as 32-bit words, and
//! vertex records laid out as the bytes copied into mapped buffer memory.
use vstd::prelude::*;

verus! {

/// Size in bytes of one vertex record: three position words and three color
/// words.
pub const VERTEX_STRIDE: u64 = 24;

/// Byte offset of the color words inside a vertex record.
pub const COLOR_OFFSET: u32 = 12;

/// One vertex: a position and a color, each three IEEE-754 single-precision
/// values carried as their bit patterns.
#[derive(Clone, Copy, Debug, PartialEq, Eq)]
pub struct Vertex {
    pub position: [u32; 3],
    pub color: [u32; 3],
}

/// Why shader code was refused.
#[derive(Clone, Copy, Debug, PartialEq, Eq, Structural)]
pub enum ShaderCodeError {
    /// The byte length is not a multiple of four.
    MisalignedLength,
}

/// The word whose little-endian bytes are `b0 b1 b2 b3`.
pub open spec fn le_word(b0: u8, b1: u8, b2: u8, b3: u8) -> u32 {
    (b0 as u32) | ((b1 as u32) << 8u32) | ((b2 as u32) << 16u32) | ((b3 as u32) << 24u32)
}

/// Byte `j` (least significant first) of a word.
pub open spec fn word_byte(w: u32, j: int) -> u8 {
    if j == 0 {
        (w & 0xffu32) as u8
    } else if j == 1 {
        ((w >> 8u32) & 0xffu32) as u8
    } else if j == 2 {
        ((w >> 16u32) & 0xffu32) as u8
    } else {
        ((w >> 24u32) & 0xffu32) as u8
    }
}

/// The words that a byte stream reads as, four bytes each.
pub open spec fn words_of(bytes: Seq<u8>) -> Seq<u32> {
    Seq::new(bytes.len() / 4, |k: int| le_word(bytes[4 * k], bytes[4 * k + 1], bytes[4 * k + 2], bytes[4 * k + 3]))
}

/// The little-endian bytes of a word stream.
pub open spec fn bytes_of(words: Seq<u32>) -> Seq<u8> {
    Seq::new(words.len() * 4, |i: int| word_byte(words[i / 4], i % 4))
}

/// The six words of a vertex record, in memory order.
pub open spec fn vertex_words(v: Vertex) -> Seq<u32> {
    seq![v.position[0], v.position[1], v.position[2], v.color[0], v.color[1], v.color[2]]
}

/// The word stream of a vertex sequence, records back to back.
pub open spec fn vertex_stream(vertices: Seq<Vertex>) -> Seq<u32> {
    Seq::new(vertices.len() * 6, |i: int| vertex_words(vertices[i / 6])[i % 6])
}

/// The vertex whose six words start at word `6 * k`.
pub open spec fn vertex_at(words: Seq<u32>, k: int) -> Vertex {
    Vertex {
        position: [words[6 * k], words[6 * k + 1], words[6 * k + 2]],
        color: [words[6 * k + 3], words[6 * k + 4], words[6 * k + 5]],
    }
}

/// The vertices that a word stream reads as, six words each.
pub open spec fn vertices_of(words: Seq<u32>) -> Seq<Vertex> {
    Seq::new(words.len() / 6, |k: int| vertex_at(words, k))
}

/// The bytes copied into buffer memory for a vertex sequence.
pub open spec fn vertex_bytes_spec(vertices: Seq<Vertex>) -> Seq<u8> {
    bytes_of(vertex_stream(vertices))
}

/// The vertices read back from buffer memory.
pub open spec fn read_vertices_spec(bytes: Seq<u8>) -> Seq<Vertex> {
    vertices_of(words_of(bytes))
}

proof fn lemma_word_bytes(w: u32)
    ensures
        le_word(word_byte(w, 0), word_byte(w, 1), word_byte(w, 2), word_byte(w, 3)) == w,
{
    assert(((w & 0xffu32) as u8 as u32) | ((((w >> 8u32) & 0xffu32) as u8 as u32) << 8u32)
        | ((((w >> 16u32) & 0xffu32) as u8 as u32) << 16u32)
        | ((((w >> 24u32) & 0xffu32) as u8 as u32) << 24u32) == w) by (bit_vector);
}

proof fn lemma_div_mod_split(k: int, j: int, n: int)
    requires
        0 <= k,
        0 <= j < n,
    ensures
        (n * k + j) / n == k,
        (n * k + j) % n == j,
{
    assert(n * k == k * n) by (nonlinear_arith);
    vstd::arithmetic::div_mod::lemma_fundamental_div_mod_converse(n * k + j, n, k, j);
}

/// Reading back the bytes of a word stream gives the words.
pub proof fn lemma_words_round_trip(words: Seq<u32>)
    ensures
        words_of(bytes_of(words)) == words,
{
    let bytes = bytes_of(words);
    assert((words.len() * 4) / 4 == words.len()) by {
        lemma_div_mod_split(words.len() as int, 0, 4);
    }
    assert forall|k: int| 0 <= k < words.len() implies #[trigger] words_of(bytes)[k] == words[k] by {
        assert(4 * k + 3 < words.len() * 4) by (nonlinear_arith)
            requires 0 <= k < words.len();
        lemma_div_mod_split(k, 0, 4);
        lemma_div_mod_split(k, 1, 4);
        lemma_div_mod_split(k, 2, 4);
        lemma_div_mod_split(k, 3, 4);
        lemma_word_bytes(words[k]);
    }
    assert(words_of(bytes) =~= words);
}

/// Reading back the word stream of a vertex sequence gives the vertices.
pub proof fn lemma_vertex_stream_round_trip(vertices: Seq<Vertex>)
    ensures
        vertices_of(vertex_stream(vertices)) == vertices,
{
    let words = vertex_stream(vertices);
    assert((vertices.len() * 6) / 6 == vertices.len()) by {
        lemma_div_mod_split(vertices.len() as int, 0, 6);
    }
    assert forall|k: int| 0 <= k < vertices.len() implies #[trigger] vertices_of(words)[k] == vertices[k] by {
        assert(6 * k + 5 < vertices.len() * 6) by (nonlinear_arith)
            requires 0 <= k < vertices.len();
        lemma_div_mod_split(k, 0, 6);
        lemma_div_mod_split(k, 1, 6);
        lemma_div_mod_split(k, 2, 6);
        lemma_div_mod_split(k, 3, 6);
        lemma_div_mod_split(k, 4, 6);
        lemma_div_mod_split(k, 5, 6);
        let v = vertices[k];
        let r = vertex_at(words, k);
        assert(r.position =~= v.position);
        assert(r.color =~= v.color);
    }
    assert(vertices_of(words) =~= vertices);
}

/// Vertex data laid out for upload and read back gives the original input.
pub proof fn lemma_vertex_round_trip(vertices: Seq<Vertex>)
    ensures
        read_vertices_spec(vertex_bytes_spec(vertices)) == vertices,
{
    lemma_words_round_trip(vertex_stream(vertices));
    lemma_vertex_stream_round_trip(vertices);
}

/// The words of a byte stream, four bytes each; trailing bytes that do not
/// fill a word are left out.
fn le_words(bytes: &Vec<u8>) -> (r: Vec<u32>)
    ensures
        r@ == words_of(bytes@),
{
    let len = bytes.len();
    let n = len / 4;
    let mut words: Vec<u32> = Vec::with_capacity(n);
    let mut k: usize = 0;
    while k < n
        invariant
            len == bytes@.len(),
            n == bytes@.len() / 4,
            k <= n,
            words@ == words_of(bytes@).subrange(0, k as int),
        decreases n - k,
    {
        assert(4 * k + 3 < bytes@.len()) by (nonlinear_arith)
            requires k < n, n == bytes@.len() / 4;
        let b = 4 * k;
        let w = (bytes[b] as u32) | ((bytes[b + 1] as u32) << 8u32) | ((bytes[b + 2] as u32) << 16u32)
            | ((bytes[b + 3] as u32) << 24u32);
        words.push(w);
        proof {
            assert(words@ =~= words_of(bytes@).subrange(0, k + 1));
        }
        k = k + 1;
    }
    proof {
        assert(words@ =~= words_of(bytes@));
    }
    words
}

/// Reads shader code as 32-bit little-endian words; fails when its length is
/// not a multiple of four.
pub fn bytes_to_words(bytes: &Vec<u8>) -> (r: Result<Vec<u32>, ShaderCodeError>)
    ensures
        r is Err <==> bytes@.len() % 4 != 0,
        r matches Ok(words) ==> words@ == words_of(bytes@),
        r is Err ==> r == Err::<Vec<u32>, ShaderCodeError>(ShaderCodeError::MisalignedLength),
{
    if bytes.len() % 4 != 0 {
        return Err(ShaderCodeError::MisalignedLength);
    }
    Ok(le_words(bytes))
}

/// The little-endian bytes of a word stream.
pub fn words_to_bytes(words: &Vec<u32>) -> (r: Vec<u8>)
    requires
        words@.len() * 4 <= usize::MAX,
    ensures
        r@ == bytes_of(words@),
{
    let mut bytes: Vec<u8> = Vec::with_capacity(words.len() * 4);
    let mut k: usize = 0;
    while k < words.len()
        invariant
            k <= words@.len(),
            words@.len() * 4 <= usize::MAX,
            bytes@ =~= bytes_of(words@).subrange(0, 4 * k as int),
        decreases words@.len() - k,
    {
        let w = words[k];
        bytes.push((w & 0xffu32) as u8);
        bytes.push(((w >> 8u32) & 0xffu32) as u8);
        bytes.push(((w >> 16u32) & 0xffu32) as u8);
        bytes.push(((w >> 24u32) & 0xffu32) as u8);
        proof {
            lemma_div_mod_split(k as int, 0, 4);
            lemma_div_mod_split(k as int, 1, 4);
            lemma_div_mod_split(k as int, 2, 4);
            lemma_div_mod_split(k as int, 3, 4);
            assert(bytes@ =~= bytes_of(words@).subrange(0, 4 * (k + 1)));
        }
        k = k + 1;
    }
    bytes
}

/// The bytes to copy into mapped buffer memory for a vertex sequence: each
/// record's six words, little-endian, records back to back.
pub fn vertex_bytes(vertices: &Vec<Vertex>) -> (r: Vec<u8>)
    requires
        vertices@.len() * 24 <= usize::MAX,
    ensures
        r@ == vertex_bytes_spec(vertices@),
{
    let mut words: Vec<u32> = Vec::with_capacity(vertices.len() * 6);
    let mut k: usize = 0;
    while k < vertices.len()
        invariant
            k <= vertices@.len(),
            vertices@.len() * 24 <= usize::MAX,
            words@ =~= vertex_stream(vertices@).subrange(0, 6 * k as int),
        decreases vertices@.len() - k,
    {
        let v = vertices[k];
        words.push(v.position[0]);
        words.push(v.position[1]);
        words.push(v.position[2]);
        words.push(v.color[0]);
        words.push(v.color[1]);
        words.push(v.color[2]);
        proof {
            lemma_div_mod_split(k as int, 0, 6);
            lemma_div_mod_split(k as int, 1, 6);
            lemma_div_mod_split(k as int, 2, 6);
            lemma_div_mod_split(k as int, 3, 6);
            lemma_div_mod_split(k as int, 4, 6);
            lemma_div_mod_split(k as int, 5, 6);
            assert(words@ =~= vertex_stream(vertices@).subrange(0, 6 * (k + 1)));
        }
        k = k + 1;
    }
    proof {
        assert(words@ =~= vertex_stream(vertices@));
    }
    words_to_bytes(&words)
}

/// Reads vertex records back from buffer memory; trailing bytes that do not
/// fill a record are left out.
pub fn read_vertices(bytes: &Vec<u8>) -> (r: Vec<Vertex>)
    ensures
        r@ == read_vertices_spec(bytes@),
{
    let words = le_words(bytes);
    let len = words.len();
    let n = len / 6;
    let mut vertices: Vec<Vertex> = Vec::with_capacity(n);
    let mut k: usize = 0;
    while k < n
        invariant
            len == words@.len(),
            n == words@.len() / 6,
            words@ == words_of(bytes@),
            k <= n,
            vertices@ =~= vertices_of(words@).subrange(0, k as int),
        decreases n - k,
    {
        assert(6 * k + 5 < words@.len()) by (nonlinear_arith)
            requires k < n, n == words@.len() / 6;
        let b = 6 * k;
        let v = Vertex {
            position: [words[b], words[b + 1], words[b + 2]],
            color: [words[b + 3], words[b + 4], words[b + 5]],
        };
        vertices.push(v);
        proof {
            assert(v == vertex_at(words@, k as int));
            assert(vertices@ =~= vertices_of(words@).subrange(0, k + 1));
        }
        k = k + 1;
    }
    proof {
        assert(vertices@ =~= vertices_of(words@));
    }
    vertices
}

} // verus!
