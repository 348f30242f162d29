//! The integer part of Wavefront OBJ faces: the vertex index of a face
//! corner (`7`, `7/2`, `7//3`), made zero-based, and the grouping of corners
//! into whole triangles.
use vstd::prelude::*;

verus! {

/// Why a face corner was refused.
#[derive(Clone, Copy, Debug, PartialEq, Eq, Structural)]
pub enum ObjError {
    /// The vertex field is empty, holds a non-digit, or exceeds 32 bits.
    BadIndex,
    /// The vertex field is 0; OBJ indices start at 1.
    ZeroIndex,
}

/// An ASCII decimal digit.
pub open spec fn is_digit(b: u8) -> bool {
    48 <= b <= 57
}

/// The value of a string of decimal digits.
pub open spec fn decimal_value(s: Seq<u8>) -> int
    decreases s.len(),
{
    if s.len() == 0 {
        0
    } else {
        decimal_value(s.drop_last()) * 10 + (s.last() - 48)
    }
}

/// The index of the first `/` at or after `i`, or the length.
pub open spec fn field_end(tok: Seq<u8>, i: int) -> int
    decreases tok.len() - i,
{
    if i < 0 || i >= tok.len() || tok[i] == 47u8 {
        if i < 0 { 0 } else if i > tok.len() { tok.len() as int } else { i }
    } else {
        field_end(tok, i + 1)
    }
}

/// The vertex field of a face corner: everything before the first `/`.
pub open spec fn vertex_field(tok: Seq<u8>) -> Seq<u8> {
    tok.subrange(0, field_end(tok, 0))
}

/// Every byte is a decimal digit.
pub open spec fn all_digits(s: Seq<u8>) -> bool {
    forall|i: int| 0 <= i < s.len() ==> is_digit(#[trigger] s[i])
}

/// What a face corner reads as: its zero-based vertex index or the error.
pub open spec fn corner_spec(tok: Seq<u8>) -> Result<u32, ObjError> {
    let f = vertex_field(tok);
    if f.len() == 0 || !all_digits(f) || decimal_value(f) > u32::MAX {
        Err(ObjError::BadIndex)
    } else if decimal_value(f) == 0 {
        Err(ObjError::ZeroIndex)
    } else {
        Ok((decimal_value(f) - 1) as u32)
    }
}

proof fn lemma_field_end(tok: Seq<u8>, i: int)
    requires
        0 <= i <= tok.len(),
    ensures
        i <= field_end(tok, i) <= tok.len(),
        forall|k: int| i <= k < field_end(tok, i) ==> tok[k] != 47u8,
        field_end(tok, i) < tok.len() ==> tok[field_end(tok, i)] == 47u8,
    decreases tok.len() - i,
{
    if i < tok.len() && tok[i] != 47u8 {
        lemma_field_end(tok, i + 1);
    }
}

proof fn lemma_decimal_grows(s: Seq<u8>, i: int, j: int)
    requires
        0 <= i <= j <= s.len(),
        all_digits(s),
    ensures
        0 <= decimal_value(s.subrange(0, i)) <= decimal_value(s.subrange(0, j)),
    decreases j,
{
    if j > 0 {
        let p = s.subrange(0, j);
        assert(p.drop_last() =~= s.subrange(0, j - 1));
        assert(is_digit(s[j - 1]));
        if i < j {
            lemma_decimal_grows(s, i, j - 1);
        } else {
            lemma_decimal_grows(s, 0, j - 1);
        }
    } else {
        assert(s.subrange(0, 0) =~= Seq::<u8>::empty());
    }
}

/// Reads the vertex index of a face corner, made zero-based.
pub fn face_vertex_index(tok: &Vec<u8>) -> (r: Result<u32, ObjError>)
    ensures
        r == corner_spec(tok@),
{
    proof {
        lemma_field_end(tok@, 0);
    }
    let ghost end = field_end(tok@, 0);
    let mut value: u64 = 0;
    let mut i: usize = 0;
    while i < tok.len() && tok[i] != 47u8
        invariant
            0 <= i <= end,
            end == field_end(tok@, 0),
            0 <= end <= tok@.len(),
            forall|k: int| 0 <= k < end ==> tok@[k] != 47u8,
            end < tok@.len() ==> tok@[end] == 47u8,
            all_digits(tok@.subrange(0, i as int)),
            value == decimal_value(tok@.subrange(0, i as int)),
            value <= u32::MAX,
        decreases tok@.len() - i,
    {
        let b = tok[i];
        if b < 48u8 || b > 57u8 {
            proof {
                let f = vertex_field(tok@);
                assert(f[i as int] == b);
            }
            return Err(ObjError::BadIndex);
        }
        let next = value * 10 + (b - 48u8) as u64;
        proof {
            let p = tok@.subrange(0, i + 1);
            assert(p.drop_last() =~= tok@.subrange(0, i as int));
            assert(all_digits(p));
        }
        if next > u32::MAX as u64 {
            proof {
                let f = vertex_field(tok@);
                if all_digits(f) {
                    lemma_decimal_grows(f, i + 1, f.len() as int);
                    assert(f.subrange(0, i + 1) =~= tok@.subrange(0, i + 1));
                    assert(f.subrange(0, f.len() as int) =~= f);
                }
            }
            return Err(ObjError::BadIndex);
        }
        value = next;
        i = i + 1;
    }
    proof {
        assert(i == end);
        assert(vertex_field(tok@) =~= tok@.subrange(0, i as int));
    }
    if i == 0 {
        return Err(ObjError::BadIndex);
    }
    if value == 0 {
        return Err(ObjError::ZeroIndex);
    }
    Ok((value - 1) as u32)
}

/// The corners that make whole triangles: a trailing one or two are left
/// out.
pub fn triangle_indices(corners: &Vec<u32>) -> (r: Vec<u32>)
    ensures
        r@ == corners@.subrange(0, (corners@.len() / 3 * 3) as int),
{
    let n = corners.len() / 3 * 3;
    let mut r: Vec<u32> = Vec::with_capacity(n);
    let mut i: usize = 0;
    while i < n
        invariant
            n == corners@.len() / 3 * 3,
            n <= corners@.len(),
            i <= n,
            r@ == corners@.subrange(0, i as int),
        decreases n - i,
    {
        r.push(corners[i]);
        proof {
            assert(r@ =~= corners@.subrange(0, i + 1));
        }
        i = i + 1;
    }
    r
}

} // verus!
