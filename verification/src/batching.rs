//! Cutting a sequence into consecutive chunks of bounded size.

use vstd::prelude::*;

verus! {

/// The number of chunks that `n` items fill, `size` to a chunk: `n / size`
/// rounded up.
pub open spec fn spec_chunk_count(n: nat, size: nat) -> nat {
    if n % size == 0 {
        n / size
    } else {
        n / size + 1
    }
}

/// The length of chunk `i` of `n` items, `size` to a chunk.
pub open spec fn spec_chunk_len(n: nat, size: nat, i: int) -> nat {
    if (i + 1) * size <= n {
        size
    } else {
        (n - i * size) as nat
    }
}

/// Chunk `i` of `s`: the items from place `i * size` on, up to `size` of
/// them.
pub open spec fn spec_chunk<T>(s: Seq<T>, size: nat, i: int) -> Seq<T> {
    s.subrange(i * size, i * size + spec_chunk_len(s.len(), size, i))
}

/// The chunks of `s`, in order.
pub open spec fn spec_chunks<T>(s: Seq<T>, size: nat) -> Seq<Seq<T>> {
    Seq::new(spec_chunk_count(s.len(), size), |i: int| spec_chunk(s, size, i))
}

/// The chunks held in `chunks`, each as a sequence.
pub open spec fn spec_chunk_views<T>(chunks: Seq<Vec<T>>) -> Seq<Seq<T>> {
    Seq::new(chunks.len(), |i: int| chunks[i]@)
}

/// `k` full chunks and a rest of `r` items, `0 < r <= size`, make `k + 1`
/// chunks; with no rest they make `k`.
proof fn lemma_count(n: nat, size: nat, k: nat, r: nat)
    requires
        size > 0,
        n == k * size + r,
        r <= size,
    ensures
        r == 0 ==> spec_chunk_count(n, size) == k,
        r > 0 ==> spec_chunk_count(n, size) == k + 1,
{
    if r == size {
        assert(n == (k + 1) * size) by (nonlinear_arith)
            requires
                n == k * size + r,
                r == size,
        ;
        vstd::arithmetic::div_mod::lemma_fundamental_div_mod_converse(
            n as int,
            size as int,
            (k + 1) as int,
            0,
        );
    } else {
        vstd::arithmetic::div_mod::lemma_fundamental_div_mod_converse(
            n as int,
            size as int,
            k as int,
            r as int,
        );
    }
}

/// Cuts `items` into consecutive chunks of `size` items; the last chunk
/// holds what is left, at least one item. No items, no chunks.
pub fn chunks_of<T>(items: Vec<T>, size: usize) -> (chunks: Vec<Vec<T>>)
    requires
        size > 0,
    ensures
        spec_chunk_views(chunks@) == spec_chunks(items@, size as nat),
{
    let ghost all = items@;
    let ghost n = all.len();
    let mut rest = items;
    let mut chunks: Vec<Vec<T>> = Vec::new();
    proof {
        assert(chunks@.len() * size == 0) by (nonlinear_arith)
            requires
                chunks@.len() == 0,
        ;
        assert(rest@ =~= all.subrange(0, n as int));
    }
    while rest.len() > size
        invariant
            size > 0,
            n == all.len(),
            chunks@.len() * size + rest@.len() == n,
            rest@ == all.subrange(chunks@.len() * size, n as int),
            forall|i: int|
                0 <= i < chunks@.len() ==> (#[trigger] chunks@[i])@ == spec_chunk(
                    all,
                    size as nat,
                    i,
                ),
        decreases rest@.len(),
    {
        let ghost k = chunks@.len() as int;
        let ghost before = rest@;
        let tail = rest.split_off(size);
        proof {
            assert((k + 1) * size == k * size + size) by (nonlinear_arith);
            assert(spec_chunk_len(n, size as nat, k) == size);
            assert(rest@ =~= spec_chunk(all, size as nat, k));
            assert(tail@ =~= all.subrange((k + 1) * size, n as int));
        }
        chunks.push(rest);
        rest = tail;
    }
    let ghost k = chunks@.len() as int;
    proof {
        lemma_count(n, size as nat, k as nat, rest@.len());
    }
    if rest.len() > 0 {
        proof {
            assert((k + 1) * size == k * size + size) by (nonlinear_arith);
            assert(rest@ =~= spec_chunk(all, size as nat, k));
        }
        chunks.push(rest);
    }
    assert(spec_chunk_views(chunks@) =~= spec_chunks(all, size as nat));
    chunks
}

/// The number of chunks is `n / size` rounded up; every chunk but the last
/// is full, and the last holds `n mod size` items, or `size` where that is
/// zero.
pub proof fn lemma_chunk_sizes<T>(s: Seq<T>, size: nat)
    requires
        size > 0,
    ensures
        spec_chunks(s, size).len() == spec_chunk_count(s.len(), size),
        spec_chunk_count(s.len(), size) * size >= s.len(),
        spec_chunk_count(s.len(), size) > 0 ==> (spec_chunk_count(s.len(), size) - 1) * size
            < s.len(),
        forall|i: int|
            0 <= i < spec_chunk_count(s.len(), size) - 1 ==> (#[trigger] spec_chunks(
                s,
                size,
            )[i]).len() == size,
        spec_chunk_count(s.len(), size) > 0 ==> spec_chunks(s, size).last().len() == if s.len()
            % size == 0 {
            size
        } else {
            s.len() % size
        },
{
    let n = s.len();
    let c = spec_chunk_count(n, size);
    vstd::arithmetic::div_mod::lemma_fundamental_div_mod(n as int, size as int);
    let q = (n / size) as int;
    let m = (n % size) as int;
    assert(n == size * q + m);
    assert(0 <= m < size);
    assert(size * q == q * size) by (nonlinear_arith);
    assert(0 <= q) by (nonlinear_arith)
        requires
            n == size * q + m,
            0 <= m < size,
            size > 0,
            n >= 0,
    ;
    assert(c * size >= n) by (nonlinear_arith)
        requires
            n == q * size + m,
            0 <= m < size,
            c == (if m == 0 {
                q
            } else {
                q + 1
            }),
    ;
    if c > 0 {
        assert((c - 1) * size < n && n - (c - 1) * size == (if m == 0 {
            size as int
        } else {
            m
        })) by (nonlinear_arith)
            requires
                n == q * size + m,
                0 <= m < size,
                c > 0,
                c == (if m == 0 {
                    q
                } else {
                    q + 1
                }),
        ;
        assert(c * size == (c - 1) * size + size) by (nonlinear_arith);
        assert(spec_chunks(s, size).last() == spec_chunk(s, size, c - 1));
    }
    assert forall|i: int| 0 <= i < c - 1 implies (#[trigger] spec_chunks(s, size)[i]).len()
        == size by {
        assert((i + 1) * size <= (c - 1) * size) by (nonlinear_arith)
            requires
                i + 1 <= c - 1,
                size > 0,
        ;
        assert(i * size >= 0) by (nonlinear_arith)
            requires
                i >= 0,
                size > 0,
        ;
        assert((i + 1) * size == i * size + size) by (nonlinear_arith);
    }
}

/// Chunking keeps every item and the order of the items: item `j` of the
/// sequence is item `j mod size` of chunk `j / size`.
pub proof fn lemma_chunks_keep_order<T>(s: Seq<T>, size: nat, j: int)
    requires
        size > 0,
        0 <= j < s.len(),
    ensures
        0 <= j / (size as int) < spec_chunks(s, size).len(),
        0 <= j % (size as int) < spec_chunks(s, size)[j / (size as int)].len(),
        spec_chunks(s, size)[j / (size as int)][j % (size as int)] == s[j],
{
    let n = s.len();
    let c = spec_chunk_count(n, size);
    let i = j / (size as int);
    let o = j % (size as int);
    lemma_chunk_sizes(s, size);
    vstd::arithmetic::div_mod::lemma_fundamental_div_mod(j, size as int);
    assert(j == size * i + o);
    assert(size * i == i * size) by (nonlinear_arith);
    assert(0 <= i) by (nonlinear_arith)
        requires
            j == i * size + o,
            0 <= o < size,
            j >= 0,
            size > 0,
    ;
    assert(i < c) by (nonlinear_arith)
        requires
            j == i * size + o,
            0 <= o < size,
            j < n,
            c * size >= n,
            size > 0,
    ;
    assert((i + 1) * size == i * size + size) by (nonlinear_arith);
    assert(o < spec_chunk_len(n, size, i));
}

/// The first `k` chunks, laid end to end, are the items before chunk `k`.
proof fn lemma_prefix_flatten<T>(s: Seq<T>, size: nat, k: nat)
    requires
        size > 0,
        k <= spec_chunk_count(s.len(), size),
    ensures
        spec_chunks(s, size).take(k as int).flatten() == s.subrange(
            0,
            if k * size <= s.len() {
                (k * size) as int
            } else {
                s.len() as int
            },
        ),
    decreases k,
{
    let n = s.len();
    let c = spec_chunk_count(n, size);
    let cs = spec_chunks(s, size);
    lemma_chunk_sizes(s, size);
    if k == 0 {
        assert(cs.take(0) =~= Seq::<Seq<T>>::empty());
        assert(0 * size == 0) by (nonlinear_arith);
        assert(cs.take(0).flatten() =~= s.subrange(0, 0));
    } else {
        let i = (k - 1) as int;
        lemma_prefix_flatten(s, size, (k - 1) as nat);
        assert(cs.take(k as int) =~= cs.take(i).push(cs[i]));
        cs.take(i).lemma_flatten_push(cs[i]);
        assert(i * size <= (c - 1) * size) by (nonlinear_arith)
            requires
                i <= c - 1,
                size > 0,
        ;
        assert(i * size >= 0) by (nonlinear_arith)
            requires
                i >= 0,
                size > 0,
        ;
        assert(k * size == i * size + size) by (nonlinear_arith)
            requires
                k == i + 1,
        ;
        assert(cs[i] == spec_chunk(s, size, i));
        assert(cs.take(k as int).flatten() =~= s.subrange(
            0,
            if k * size <= n {
                (k * size) as int
            } else {
                n as int
            },
        ));
    }
}

/// Chunking loses nothing and adds nothing: the chunks, laid end to end in
/// their order, are the sequence.
pub proof fn lemma_chunks_flatten<T>(s: Seq<T>, size: nat)
    requires
        size > 0,
    ensures
        spec_chunks(s, size).flatten() == s,
{
    let cs = spec_chunks(s, size);
    lemma_chunk_sizes(s, size);
    lemma_prefix_flatten(s, size, spec_chunk_count(s.len(), size));
    assert(cs.take(cs.len() as int) =~= cs);
    assert(s.subrange(0, s.len() as int) =~= s);
}

} // verus!
