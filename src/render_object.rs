//! Argument records of indirect draw and dispatch commands.

use crate::misc::{Convert2Vec, read_word, word_at};
use vstd::prelude::*;

verus! {

/// The arguments of an indirect draw.
#[derive(Debug, Clone, Copy, PartialEq, Eq, Structural)]
pub struct DrawIndirect {
    /// The number of vertices to draw.
    pub vertex_count: u32,
    /// The number of instances to draw.
    pub instance_count: u32,
    /// The index of the first vertex to draw.
    pub base_vertex: u32,
    /// The instance ID of the first instance to draw.
    pub base_instance: u32,
}

/// The workgroup counts of an indirect compute dispatch.
#[derive(Debug, Clone, Copy, PartialEq, Eq, Structural)]
pub struct DispatchIndirect {
    pub x: u32,
    pub y: u32,
    pub z: u32,
}

/// The draw record whose four words start at byte `at` of `b`.
pub open spec fn draw_at(b: Seq<u8>, at: int) -> DrawIndirect {
    DrawIndirect {
        vertex_count: word_at(b, at),
        instance_count: word_at(b, at + 4),
        base_vertex: word_at(b, at + 8),
        base_instance: word_at(b, at + 12),
    }
}

/// The dispatch record whose three words start at byte `at` of `b`.
pub open spec fn dispatch_at(b: Seq<u8>, at: int) -> DispatchIndirect {
    DispatchIndirect { x: word_at(b, at), y: word_at(b, at + 4), z: word_at(b, at + 8) }
}

impl Convert2Vec for DrawIndirect {
    open spec fn decoded(data: Seq<u8>) -> Seq<DrawIndirect> {
        Seq::new((data.len() / 16) as nat, |i: int| draw_at(data, 16 * i))
    }

    fn convert(data: &[u8]) -> (r: Vec<DrawIndirect>) {
        let len = data.len();
        let n = len / 16;
        let mut out: Vec<DrawIndirect> = Vec::with_capacity(n);
        let mut i: usize = 0;
        while i < n
            invariant
                len == data@.len(),
                n == len / 16,
                i <= n,
                out@ == <DrawIndirect as Convert2Vec>::decoded(data@).take(i as int),
            decreases n - i,
        {
            assert(16 * i + 16 <= data@.len()) by (nonlinear_arith)
                requires
                    i < n,
                    n == data@.len() / 16,
            ;
            let at = 16 * i;
            out.push(
                DrawIndirect {
                    vertex_count: read_word(data, at),
                    instance_count: read_word(data, at + 4),
                    base_vertex: read_word(data, at + 8),
                    base_instance: read_word(data, at + 12),
                },
            );
            i = i + 1;
            assert(out@ =~= <DrawIndirect as Convert2Vec>::decoded(data@).take(i as int));
        }
        assert(out@ =~= <DrawIndirect as Convert2Vec>::decoded(data@));
        out
    }
}

impl Convert2Vec for DispatchIndirect {
    open spec fn decoded(data: Seq<u8>) -> Seq<DispatchIndirect> {
        Seq::new((data.len() / 12) as nat, |i: int| dispatch_at(data, 12 * i))
    }

    fn convert(data: &[u8]) -> (r: Vec<DispatchIndirect>) {
        let len = data.len();
        let n = len / 12;
        let mut out: Vec<DispatchIndirect> = Vec::with_capacity(n);
        let mut i: usize = 0;
        while i < n
            invariant
                len == data@.len(),
                n == len / 12,
                i <= n,
                out@ == <DispatchIndirect as Convert2Vec>::decoded(data@).take(i as int),
            decreases n - i,
        {
            assert(12 * i + 12 <= data@.len()) by (nonlinear_arith)
                requires
                    i < n,
                    n == data@.len() / 12,
            ;
            let at = 12 * i;
            out.push(
                DispatchIndirect {
                    x: read_word(data, at),
                    y: read_word(data, at + 4),
                    z: read_word(data, at + 8),
                },
            );
            i = i + 1;
            assert(out@ =~= <DispatchIndirect as Convert2Vec>::decoded(data@).take(i as int));
        }
        assert(out@ =~= <DispatchIndirect as Convert2Vec>::decoded(data@));
        out
    }
}

} // verus!
