//! Reading values back out of raw buffer bytes.

use vstd::prelude::*;

verus! {

/// The little-endian 32-bit word that starts at byte `at` of `b`.
pub open spec fn word_at(b: Seq<u8>, at: int) -> u32 {
    (b[at] as int + 256 * b[at + 1] as int + 65536 * b[at + 2] as int + 16777216 * b[at
        + 3] as int) as u32
}

/// Reads the little-endian word at byte `at` of `data`.
pub fn read_word(data: &[u8], at: usize) -> (r: u32)
    requires
        at + 4 <= data@.len(),
    ensures
        r == word_at(data@, at as int),
{
    (data[at] as u32) + 256 * (data[at + 1] as u32) + 65536 * (data[at + 2] as u32) + 16777216 * (
    data[at + 3] as u32)
}

/// Types that can be read back from the bytes of a buffer, one whole record
/// after another; trailing bytes too few for a record are left out.
pub trait Convert2Vec: Sized {
    /// The values that `data` holds.
    spec fn decoded(data: Seq<u8>) -> Seq<Self>;

    fn convert(data: &[u8]) -> (r: Vec<Self>)
        ensures
            r@ == Self::decoded(data@),
    ;
}

impl Convert2Vec for u32 {
    open spec fn decoded(data: Seq<u8>) -> Seq<u32> {
        Seq::new((data.len() / 4) as nat, |i: int| word_at(data, 4 * i))
    }

    fn convert(data: &[u8]) -> (r: Vec<u32>) {
        let len = data.len();
        let n = len / 4;
        let mut out: Vec<u32> = Vec::with_capacity(n);
        let mut i: usize = 0;
        while i < n
            invariant
                len == data@.len(),
                n == len / 4,
                i <= n,
                out@ == <u32 as Convert2Vec>::decoded(data@).take(i as int),
            decreases n - i,
        {
            assert(4 * i + 4 <= data@.len()) by (nonlinear_arith)
                requires
                    i < n,
                    n == data@.len() / 4,
            ;
            out.push(read_word(data, 4 * i));
            i = i + 1;
            assert(out@ =~= <u32 as Convert2Vec>::decoded(data@).take(i as int));
        }
        assert(out@ =~= <u32 as Convert2Vec>::decoded(data@));
        out
    }
}

/// The format of one vertex attribute, as the graphics API names it.
#[derive(Clone, Copy, Debug, PartialEq, Eq, Structural)]
pub enum VertexFormat {
    Uint8x2,
    Uint8x4,
    Sint8x2,
    Sint8x4,
    Unorm8x2,
    Unorm8x4,
    Snorm8x2,
    Snorm8x4,
    Uint16x2,
    Uint16x4,
    Sint16x2,
    Sint16x4,
    Unorm16x2,
    Unorm16x4,
    Snorm16x2,
    Snorm16x4,
    Float16x2,
    Float16x4,
    Float32,
    Float32x2,
    Float32x3,
    Float32x4,
    Uint32,
    Uint32x2,
    Uint32x3,
    Uint32x4,
    Sint32,
    Sint32x2,
    Sint32x3,
    Sint32x4,
    Float64,
    Float64x2,
    Float64x3,
    Float64x4,
}

/// The size in bytes of an attribute of format `f`; `None` for the half- and
/// double-precision formats, which vertex layouts here do not support.
pub open spec fn format_size(f: VertexFormat) -> Option<u64> {
    match f {
        VertexFormat::Uint8x2 => Some(2u64),
        VertexFormat::Uint8x4 => Some(4u64),
        VertexFormat::Sint8x2 => Some(2u64),
        VertexFormat::Sint8x4 => Some(4u64),
        VertexFormat::Unorm8x2 => Some(2u64),
        VertexFormat::Unorm8x4 => Some(4u64),
        VertexFormat::Snorm8x2 => Some(2u64),
        VertexFormat::Snorm8x4 => Some(4u64),
        VertexFormat::Uint16x2 => Some(4u64),
        VertexFormat::Uint16x4 => Some(8u64),
        VertexFormat::Sint16x2 => Some(4u64),
        VertexFormat::Sint16x4 => Some(8u64),
        VertexFormat::Unorm16x2 => Some(4u64),
        VertexFormat::Unorm16x4 => Some(8u64),
        VertexFormat::Snorm16x2 => Some(4u64),
        VertexFormat::Snorm16x4 => Some(8u64),
        VertexFormat::Float16x2 => None,
        VertexFormat::Float16x4 => None,
        VertexFormat::Float32 => Some(4u64),
        VertexFormat::Float32x2 => Some(8u64),
        VertexFormat::Float32x3 => Some(12u64),
        VertexFormat::Float32x4 => Some(16u64),
        VertexFormat::Uint32 => Some(4u64),
        VertexFormat::Uint32x2 => Some(8u64),
        VertexFormat::Uint32x3 => Some(12u64),
        VertexFormat::Uint32x4 => Some(16u64),
        VertexFormat::Sint32 => Some(4u64),
        VertexFormat::Sint32x2 => Some(8u64),
        VertexFormat::Sint32x3 => Some(12u64),
        VertexFormat::Sint32x4 => Some(16u64),
        VertexFormat::Float64 => None,
        VertexFormat::Float64x2 => None,
        VertexFormat::Float64x3 => None,
        VertexFormat::Float64x4 => None,
    }
}

/// The size in bytes of an attribute of format `f`.
pub fn vertex_format_size(f: VertexFormat) -> (r: u64)
    requires
        format_size(f) is Some,
    ensures
        format_size(f) == Some(r),
{
    match f {
            VertexFormat::Uint8x2 => 2,
            VertexFormat::Uint8x4 => 4,
            VertexFormat::Sint8x2 => 2,
            VertexFormat::Sint8x4 => 4,
            VertexFormat::Unorm8x2 => 2,
            VertexFormat::Unorm8x4 => 4,
            VertexFormat::Snorm8x2 => 2,
            VertexFormat::Snorm8x4 => 4,
            VertexFormat::Uint16x2 => 4,
            VertexFormat::Uint16x4 => 8,
            VertexFormat::Sint16x2 => 4,
            VertexFormat::Sint16x4 => 8,
            VertexFormat::Unorm16x2 => 4,
            VertexFormat::Unorm16x4 => 8,
            VertexFormat::Snorm16x2 => 4,
            VertexFormat::Snorm16x4 => 8,
            VertexFormat::Float32 => 4,
            VertexFormat::Float32x2 => 8,
            VertexFormat::Float32x3 => 12,
            VertexFormat::Float32x4 => 16,
            VertexFormat::Uint32 => 4,
            VertexFormat::Uint32x2 => 8,
            VertexFormat::Uint32x3 => 12,
            VertexFormat::Uint32x4 => 16,
            VertexFormat::Sint32 => 4,
            VertexFormat::Sint32x2 => 8,
            VertexFormat::Sint32x3 => 12,
            VertexFormat::Sint32x4 => 16,
            _ => 0,
    }
}

/// One attribute of a vertex buffer layout.
#[derive(Clone, Copy, Debug, PartialEq, Eq, Structural)]
pub struct VertexAttribute {
    pub format: VertexFormat,
    /// The byte offset of the attribute within a vertex.
    pub offset: u64,
    pub shader_location: u32,
}

/// The total size of the first `n` formats of `formats`.
pub open spec fn packed_size(formats: Seq<VertexFormat>, n: int) -> int
    decreases n,
{
    if n <= 0 {
        0
    } else {
        packed_size(formats, n - 1) + format_size(formats[n - 1])->0
    }
}

proof fn lemma_packed_size_bound(formats: Seq<VertexFormat>, n: int)
    requires
        0 <= n <= formats.len(),
        forall|i: int| 0 <= i < formats.len() ==> #[trigger] format_size(formats[i]) is Some,
    ensures
        0 <= packed_size(formats, n) <= 16 * n,
    decreases n,
{
    if n > 0 {
        lemma_packed_size_bound(formats, n - 1);
        assert(format_size(formats[n - 1]) is Some);
    }
}

/// Lays out attributes of the given formats one after another in a vertex:
/// attribute `i` has format `formats[i]`, shader location `i` and the total
/// size of the formats before it as its offset. Returns the vertex's size
/// (the stride) and the attributes.
pub fn create_vb_descriptor(formats: &Vec<VertexFormat>) -> (r: (u64, Vec<VertexAttribute>))
    requires
        forall|i: int| 0 <= i < formats@.len() ==> #[trigger] format_size(formats@[i]) is Some,
        formats@.len() <= u32::MAX,
    ensures
        r.0 == packed_size(formats@, formats@.len() as int),
        r.1@.len() == formats@.len(),
        forall|i: int|
            0 <= i < formats@.len() ==> #[trigger] r.1@[i] == (VertexAttribute {
                format: formats@[i],
                offset: packed_size(formats@, i) as u64,
                shader_location: i as u32,
            }),
{
    let mut attributes: Vec<VertexAttribute> = Vec::new();
    let mut stride: u64 = 0;
    let mut i: usize = 0;
    while i < formats.len()
        invariant
            i <= formats@.len() <= u32::MAX,
            forall|j: int| 0 <= j < formats@.len() ==> #[trigger] format_size(formats@[j]) is Some,
            stride == packed_size(formats@, i as int),
            attributes@.len() == i,
            forall|j: int|
                0 <= j < i ==> #[trigger] attributes@[j] == (VertexAttribute {
                    format: formats@[j],
                    offset: packed_size(formats@, j) as u64,
                    shader_location: j as u32,
                }),
        decreases formats@.len() - i,
    {
        let format = formats[i];
        let size = vertex_format_size(format);
        proof {
            lemma_packed_size_bound(formats@, i as int + 1);
        }
        attributes.push(VertexAttribute { format, offset: stride, shader_location: i as u32 });
        stride = stride + size;
        i = i + 1;
    }
    (stride, attributes)
}

} // verus!
