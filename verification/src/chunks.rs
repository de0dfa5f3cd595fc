//! Chunk arithmetic and the splitter.
//!
//! A payload of `size` bytes splits under a chunk size `c` into
//! `ceil(size / c)` chunks: every chunk but the last holds exactly `c`
//! bytes, and the last holds the remainder (or `c` when `size` is an
//! exact multiple).

use vstd::arithmetic::div_mod::lemma_fundamental_div_mod;
use vstd::arithmetic::div_mod::lemma_fundamental_div_mod_converse;
use vstd::prelude::*;

verus! {

/// Number of chunks a payload of `size` bytes splits into with chunk
/// size `c`: the ceiling of `size / c`, and `0` for an empty payload.
pub open spec fn spec_chunk_count(size: nat, c: nat) -> nat
    recommends
        c > 0,
{
    size / c + if size % c == 0 {
        0nat
    } else {
        1nat
    }
}

/// Length of the chunk at `index`: `c` for every chunk but the last,
/// the remainder for the last.
pub open spec fn spec_chunk_len(index: nat, size: nat, c: nat) -> nat
    recommends
        c > 0,
        index < spec_chunk_count(size, c),
{
    if (index + 1) * c <= size {
        c
    } else {
        (size - index * c) as nat
    }
}

/// The chunk count is the ceiling of `size / c`, written with the
/// usual addition trick.
pub proof fn lemma_chunk_count_is_ceil(size: nat, c: nat)
    requires
        c > 0,
    ensures
        spec_chunk_count(size, c) == (size + c - 1) / (c as int),
{
    let q = size / c;
    let r = size % c;
    lemma_fundamental_div_mod(size as int, c as int);
    if r == 0 {
        assert(size + c - 1 == q * c + (c - 1)) by (nonlinear_arith)
            requires
                size == (c as int) * q + r,
                r == 0,
        ;
        lemma_fundamental_div_mod_converse(size + c - 1, c as int, q as int, c - 1);
    } else {
        assert(size + c - 1 == (q + 1) * c + (r - 1)) by (nonlinear_arith)
            requires
                size == (c as int) * q + r,
        ;
        lemma_fundamental_div_mod_converse(size + c - 1, c as int, q as int + 1, r as int - 1);
    }
}

/// Every chunk that exists starts strictly inside the payload: its byte
/// offset `index * c` is below `size`.
pub proof fn lemma_chunk_offset_in_payload(index: nat, size: nat, c: nat)
    requires
        c > 0,
        index < spec_chunk_count(size, c),
    ensures
        index * c < size,
{
    let q = size / c;
    let r = size % c;
    lemma_fundamental_div_mod(size as int, c as int);
    if r == 0 {
        assert(index < q);
        assert(index * c + c <= q * c) by (nonlinear_arith)
            requires
                index < q,
                c > 0,
        ;
    } else {
        assert(index <= q);
        assert(index * c <= q * c) by (nonlinear_arith)
            requires
                index <= q,
                c > 0,
        ;
    }
}

/// The last chunk holds the remainder: `size % c` bytes, or a full `c`
/// when `size` is an exact multiple of `c`.
pub proof fn lemma_last_chunk_is_remainder(size: nat, c: nat)
    requires
        c > 0,
        size > 0,
    ensures
        spec_chunk_len((spec_chunk_count(size, c) - 1) as nat, size, c) == if size % c == 0 {
            c
        } else {
            size % c
        },
{
    let q = size / c;
    let r = size % c;
    let last = (spec_chunk_count(size, c) - 1) as nat;
    lemma_fundamental_div_mod(size as int, c as int);
    if r == 0 {
        assert(q >= 1) by (nonlinear_arith)
            requires
                size == (c as int) * q,
                size > 0,
                c > 0,
                q >= 0,
        ;
        assert(last == q - 1);
        assert((last + 1) * c == size) by (nonlinear_arith)
            requires
                last + 1 == q,
                size == (c as int) * q,
        ;
    } else {
        assert(last == q);
        assert(last * c + r == size && (last + 1) * c > size) by (nonlinear_arith)
            requires
                last == q,
                size == (c as int) * q + r,
                0 < r < c,
        ;
    }
}

/// Exact number of chunks for a payload of `size` bytes, chunked at `c`.
pub fn chunk_count(size: u64, c: u64) -> (count: u64)
    requires
        c > 0,
    ensures
        count == spec_chunk_count(size as nat, c as nat),
{
    let q = size / c;
    if size % c == 0 {
        q
    } else {
        proof {
            lemma_fundamental_div_mod(size as int, c as int);
            assert(q <= (c as int) * q) by (nonlinear_arith)
                requires
                    c >= 1,
                    q >= 0,
            ;
        }
        q + 1
    }
}

/// Covering one more window of `c` bytes (or the final shorter window)
/// raises the chunk count of the covered prefix by exactly one.
proof fn lemma_step_count(n: nat, end: nat, size: nat, c: nat)
    requires
        c > 0,
        n * c < size,
        end == if size - n * c >= c {
            n * c + c
        } else {
            size
        },
    ensures
        spec_chunk_count(n * c, c) == n,
        spec_chunk_count(end, c) == n + 1,
        end < size ==> end == (n + 1) * c,
        end <= size,
{
    assert(n * c == n * (c as int) + 0);
    lemma_fundamental_div_mod_converse((n * c) as int, c as int, n as int, 0);
    if size - n * c >= c {
        assert(end == (n + 1) * c + 0) by (nonlinear_arith)
            requires
                end == n * c + c,
        ;
        lemma_fundamental_div_mod_converse(end as int, c as int, n as int + 1, 0);
    } else {
        let r = (size - n * c) as nat;
        assert(0 < r < c);
        assert(end == n * (c as int) + r);
        lemma_fundamental_div_mod_converse(end as int, c as int, n as int, r as int);
    }
}

/// Splits `data` into consecutive chunks of `c` bytes (the last one
/// shorter when `data` is no exact multiple): chunk `i` holds exactly
/// the bytes `data[i * c .. min((i + 1) * c, data.len())]`.
pub fn split_into_chunks(data: &Vec<u8>, c: usize) -> (chunks: Vec<Vec<u8>>)
    requires
        c > 0,
    ensures
        chunks@.len() == spec_chunk_count(data@.len(), c as nat),
        forall|i: int|
            0 <= i < chunks@.len() ==> (#[trigger] chunks@[i])@ == data@.subrange(
                i * c,
                if (i + 1) * c <= data@.len() {
                    (i + 1) * (c as int)
                } else {
                    data@.len() as int
                },
            ),
        forall|i: int|
            0 <= i < chunks@.len() ==> #[trigger] chunks@[i]@.len() == spec_chunk_len(
                i as nat,
                data@.len(),
                c as nat,
            ),
{
    let ghost size = data@.len();
    let mut chunks: Vec<Vec<u8>> = Vec::new();
    let mut offset: usize = 0;
    proof {
        lemma_fundamental_div_mod_converse(0, c as int, 0, 0);
        assert(chunks@.len() * c == 0) by (nonlinear_arith)
            requires
                chunks@.len() == 0,
        ;
    }
    while offset < data.len()
        invariant
            c > 0,
            size == data@.len(),
            offset <= size,
            offset == chunks@.len() * c || offset == size,
            chunks@.len() == spec_chunk_count(offset as nat, c as nat),
            forall|i: int|
                0 <= i < chunks@.len() ==> (#[trigger] chunks@[i])@ == data@.subrange(
                    i * c,
                    if (i + 1) * c <= size {
                        (i + 1) * (c as int)
                    } else {
                        size as int
                    },
                ),
        decreases size - offset,
    {
        let ghost n = chunks@.len();
        let end = if data.len() - offset >= c {
            offset + c
        } else {
            data.len()
        };
        proof {
            lemma_step_count(n, end as nat, size, c as nat);
        }
        let mut chunk: Vec<u8> = Vec::new();
        let mut j: usize = offset;
        while j < end
            invariant
                offset <= j <= end <= data@.len(),
                chunk@ == data@.subrange(offset as int, j as int),
            decreases end - j,
        {
            chunk.push(data[j]);
            proof {
                assert(chunk@ =~= data@.subrange(offset as int, j + 1));
            }
            j = j + 1;
        }
        chunks.push(chunk);
        proof {
            assert((n as int + 1) * c == n * c + c) by (nonlinear_arith);
            assert(chunks@[n as int]@ == data@.subrange(
                n as int * c,
                if (n as int + 1) * c <= size {
                    (n as int + 1) * (c as int)
                } else {
                    size as int
                },
            ));
        }
        offset = end;
    }
    proof {
        assert forall|i: int| 0 <= i < chunks@.len() implies #[trigger] chunks@[i]@.len()
            == spec_chunk_len(i as nat, size, c as nat) by {
            lemma_chunk_offset_in_payload(i as nat, size, c as nat);
            assert((i + 1) * c == i * c + c) by (nonlinear_arith);
            assert(i * c >= 0) by (nonlinear_arith)
                requires
                    i >= 0,
                    c >= 0,
            ;
        }
    }
    chunks
}

} // verus!
