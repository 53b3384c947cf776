//! Splitting a file into fixed-size chunks.

use vstd::prelude::*;

verus! {

/// One chunk of a file: its place and its length.
#[derive(Clone, Copy, Debug, PartialEq, Eq)]
pub struct Chunk {
    pub index: u64,
    pub offset: u64,
    pub size: usize,
    pub total_chunks: u64,
}

/// Splits a file of `file_size` bytes into chunks of `chunk_size` bytes; the
/// last chunk holds what is left.
#[derive(Clone, Copy, Debug, PartialEq, Eq)]
pub struct Chunker {
    pub file_size: u64,
    pub chunk_size: usize,
    pub total_chunks: u64,
}

/// The number of chunks of `chunk_size` bytes that cover `file_size` bytes:
/// the quotient rounded up.
pub open spec fn chunk_count(file_size: int, chunk_size: int) -> int {
    (file_size + chunk_size - 1) / chunk_size
}

/// The smaller of two integers.
pub open spec fn min_int(a: int, b: int) -> int {
    if a <= b {
        a
    } else {
        b
    }
}

/// Arithmetic facts about the chunks of a file: every chunk starts inside
/// the file, chunks before the last are full, the last one reaches the end.
proof fn lemma_chunk_arith(fs: int, cs: int, i: int)
    requires
        cs > 0,
        fs >= 0,
        0 <= i < chunk_count(fs, cs),
    ensures
        i * cs < fs,
        i * cs + cs <= fs + cs - 1,
        i + 1 < chunk_count(fs, cs) ==> (i + 1) * cs < fs,
        i + 1 == chunk_count(fs, cs) ==> fs <= i * cs + cs,
{
    let q = chunk_count(fs, cs);
    let r = (fs + cs - 1) % cs;
    vstd::arithmetic::div_mod::lemma_fundamental_div_mod(fs + cs - 1, cs);
    assert(fs + cs - 1 == cs * q + r);
    assert(0 <= r < cs);
    assert(i * cs <= (q - 1) * cs) by (nonlinear_arith)
        requires
            i <= q - 1,
            cs > 0,
    ;
    assert((q - 1) * cs == q * cs - cs) by (nonlinear_arith);
    assert(cs * q == q * cs) by (nonlinear_arith);
    assert((i + 1) * cs == i * cs + cs) by (nonlinear_arith);
    if i + 1 < q {
        assert((i + 1) * cs <= (q - 1) * cs) by (nonlinear_arith)
            requires
                i + 1 <= q - 1,
                cs > 0,
        ;
    }
}

/// The number of chunks is zero exactly for an empty file.
proof fn lemma_chunk_count_zero(fs: int, cs: int)
    requires
        cs > 0,
        fs >= 0,
    ensures
        chunk_count(fs, cs) >= 0,
        chunk_count(fs, cs) == 0 <==> fs == 0,
{
    vstd::arithmetic::div_mod::lemma_fundamental_div_mod(fs + cs - 1, cs);
    let q = chunk_count(fs, cs);
    let r = (fs + cs - 1) % cs;
    assert(0 <= r < cs);
    if q < 0 {
        assert(cs * q <= -cs) by (nonlinear_arith)
            requires
                q <= -1,
                cs > 0,
        ;
    }
    if q == 0 {
        assert(cs * q == 0) by (nonlinear_arith)
            requires
                q == 0,
        ;
    }
    if fs == 0 {
        assert(q == 0) by (nonlinear_arith)
            requires
                cs * q + r == cs - 1,
                0 <= r < cs,
                cs > 0,
        ;
    }
}

impl Chunker {
    /// The chunker's fields agree: a positive chunk size and the chunk count
    /// that covers the file.
    pub open spec fn wf(&self) -> bool {
        &&& self.chunk_size > 0
        &&& self.total_chunks == chunk_count(self.file_size as int, self.chunk_size as int)
    }

    /// Where chunk `i` starts.
    pub open spec fn chunk_offset(&self, i: int) -> int {
        i * self.chunk_size
    }

    /// The length of chunk `i`: a full chunk, or what is left of the file.
    pub open spec fn chunk_len(&self, i: int) -> int {
        min_int(self.chunk_size as int, self.file_size - self.chunk_offset(i))
    }

    /// Chunk `i`, where there is one.
    pub open spec fn spec_chunk(&self, i: u64) -> Option<Chunk> {
        if i >= self.total_chunks {
            None
        } else {
            Some(
                Chunk {
                    index: i,
                    offset: self.chunk_offset(i as int) as u64,
                    size: self.chunk_len(i as int) as usize,
                    total_chunks: self.total_chunks,
                },
            )
        }
    }

    /// A chunker for a file of `file_size` bytes in chunks of `chunk_size`.
    pub fn new(file_size: u64, chunk_size: usize) -> (c: Self)
        requires
            chunk_size > 0,
            file_size + chunk_size - 1 <= u64::MAX,
        ensures
            c.file_size == file_size,
            c.chunk_size == chunk_size,
            c.total_chunks == chunk_count(file_size as int, chunk_size as int),
            c.wf(),
    {
        let cs = chunk_size as u64;
        assert(cs == chunk_size);
        let total_chunks = (file_size + (cs - 1)) / cs;
        Chunker { file_size, chunk_size, total_chunks }
    }

    /// Chunk `index`, or `None` past the last chunk.
    pub fn get_chunk(&self, index: u64) -> (r: Option<Chunk>)
        requires
            self.wf(),
        ensures
            r == self.spec_chunk(index),
            r is Some <==> index < self.total_chunks,
    {
        if index >= self.total_chunks {
            return None;
        }
        proof {
            lemma_chunk_arith(self.file_size as int, self.chunk_size as int, index as int);
        }
        let offset = index * self.chunk_size as u64;
        let remaining = self.file_size - offset;
        let size = if remaining < self.chunk_size as u64 {
            remaining as usize
        } else {
            self.chunk_size
        };
        Some(Chunk { index, offset, size, total_chunks: self.total_chunks })
    }
}

/// The total length of the first `n` chunks.
pub open spec fn covered(c: Chunker, n: nat) -> int
    decreases n,
{
    if n == 0 {
        0
    } else {
        covered(c, (n - 1) as nat) + c.chunk_len(n - 1)
    }
}

/// The chunks of a file tile it: chunk `i` starts where chunk `i - 1` ends,
/// every chunk is non-empty and lies inside the file, every chunk but the
/// last is full, and the last one ends at the end of the file.
pub proof fn lemma_chunks_tile_file(c: Chunker, i: u64)
    requires
        c.wf(),
        i < c.total_chunks,
    ensures
        c.spec_chunk(i) is Some,
        0 < c.chunk_len(i as int) <= c.chunk_size,
        c.chunk_offset(i as int) + c.chunk_len(i as int) <= c.file_size,
        i + 1 < c.total_chunks ==> c.chunk_len(i as int) == c.chunk_size && c.chunk_offset(
            i as int,
        ) + c.chunk_len(i as int) == c.chunk_offset(i + 1),
        i + 1 == c.total_chunks ==> c.chunk_offset(i as int) + c.chunk_len(i as int)
            == c.file_size,
{
    lemma_chunk_arith(c.file_size as int, c.chunk_size as int, i as int);
    assert(c.chunk_offset(i + 1) == c.chunk_offset(i as int) + c.chunk_size) by (nonlinear_arith);
}

/// Together the chunks hold exactly the file: the first `n` chunks cover
/// `min(n * chunk_size, file_size)` bytes, so all of them cover the file.
pub proof fn lemma_chunks_cover_file(c: Chunker, n: nat)
    requires
        c.wf(),
        n <= c.total_chunks,
    ensures
        covered(c, n) == min_int(n * c.chunk_size, c.file_size as int),
        n == c.total_chunks ==> covered(c, n) == c.file_size,
    decreases n,
{
    lemma_chunk_count_zero(c.file_size as int, c.chunk_size as int);
    if n == 0 {
        assert(0 * c.chunk_size == 0) by (nonlinear_arith);
    } else {
        lemma_chunks_cover_file(c, (n - 1) as nat);
        lemma_chunk_arith(c.file_size as int, c.chunk_size as int, n - 1);
        assert(n * c.chunk_size == (n - 1) * c.chunk_size + c.chunk_size) by (nonlinear_arith);
    }
    if n == c.total_chunks && n > 0 {
        lemma_chunk_arith(c.file_size as int, c.chunk_size as int, n - 1);
        assert(n * c.chunk_size == (n - 1) * c.chunk_size + c.chunk_size) by (nonlinear_arith);
    }
}

/// The number of chunks is zero exactly for an empty file.
pub proof fn lemma_no_chunks_iff_empty(c: Chunker)
    requires
        c.wf(),
    ensures
        c.total_chunks == 0 <==> c.file_size == 0,
{
    lemma_chunk_count_zero(c.file_size as int, c.chunk_size as int);
}

/// The bytes of chunk `i` of the file `f`.
pub open spec fn chunk_bytes(c: Chunker, f: Seq<u8>, i: int) -> Seq<u8> {
    f.subrange(c.chunk_offset(i), c.chunk_offset(i) + c.chunk_len(i))
}

/// The bytes of the first `n` chunks of `f`, one after the other.
pub open spec fn joined_chunks(c: Chunker, f: Seq<u8>, n: nat) -> Seq<u8>
    decreases n,
{
    if n == 0 {
        seq![]
    } else {
        joined_chunks(c, f, (n - 1) as nat) + chunk_bytes(c, f, n - 1)
    }
}

/// Reading a file chunk by chunk and putting the chunks back together, in
/// order, gives the file.
pub proof fn lemma_chunks_rebuild_file(c: Chunker, f: Seq<u8>, n: nat)
    requires
        c.wf(),
        f.len() == c.file_size,
        n <= c.total_chunks,
    ensures
        joined_chunks(c, f, n) == f.subrange(0, covered(c, n)),
        n == c.total_chunks ==> joined_chunks(c, f, n) == f,
    decreases n,
{
    lemma_chunks_cover_file(c, n);
    if n > 0 {
        lemma_chunks_rebuild_file(c, f, (n - 1) as nat);
        lemma_chunks_cover_file(c, (n - 1) as nat);
        lemma_chunk_arith(c.file_size as int, c.chunk_size as int, n - 1);
        lemma_chunks_tile_file(c, (n - 1) as u64);
        assert(joined_chunks(c, f, n) =~= f.subrange(0, covered(c, n)));
    }
    if n == c.total_chunks {
        assert(f.subrange(0, f.len() as int) =~= f);
    }
}

} // verus!
