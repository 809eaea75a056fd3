use vstd::prelude::*;

verus! {

/// `buf` with its first `n` bytes set to the low byte of `c`.
pub open spec fn memset_spec(buf: Seq<u8>, c: i32, n: int) -> Seq<u8> {
    Seq::new(buf.len(), |i: int| if i < n { c as u8 } else { buf[i] })
}

/// `dest` with its first `n` bytes replaced by the first `n` bytes of `src`.
pub open spec fn memcpy_spec(dest: Seq<u8>, src: Seq<u8>, n: int) -> Seq<u8> {
    Seq::new(dest.len(), |i: int| if i < n { src[i] } else { dest[i] })
}

/// `buf` with the `n` bytes at `dest` replaced by the `n` bytes that stood at `src`.
pub open spec fn memmove_spec(buf: Seq<u8>, dest: int, src: int, n: int) -> Seq<u8> {
    Seq::new(buf.len(), |i: int| if dest <= i < dest + n { buf[src + (i - dest)] } else { buf[i] })
}

/// `a` and `b` agree before index `k`.
pub open spec fn agree_before(a: Seq<u8>, b: Seq<u8>, k: usize) -> bool {
    forall|j: int| 0 <= j < k ==> a[j] == b[j]
}

/// The difference of the first pair of bytes among the first `n` of `a` and
/// `b` that differ, or 0 when they all agree.
pub open spec fn first_difference(a: Seq<u8>, b: Seq<u8>, n: usize) -> int
    decreases n,
{
    if n == 0 {
        0
    } else {
        let m = (n - 1) as usize;
        if first_difference(a, b, m) != 0 {
            first_difference(a, b, m)
        } else if a[m as int] != b[m as int] {
            a[m as int] - b[m as int]
        } else {
            0
        }
    }
}

proof fn lemma_agree_no_difference(a: Seq<u8>, b: Seq<u8>, n: usize)
    requires
        agree_before(a, b, n),
    ensures
        first_difference(a, b, n) == 0,
    decreases n,
{
    if n > 0 {
        lemma_agree_no_difference(a, b, (n - 1) as usize);
    }
}

proof fn lemma_first_difference_at(a: Seq<u8>, b: Seq<u8>, k: usize, n: usize)
    requires
        k < n,
        agree_before(a, b, k),
        a[k as int] != b[k as int],
    ensures
        first_difference(a, b, n) == a[k as int] - b[k as int],
    decreases n,
{
    if n == k + 1 {
        lemma_agree_no_difference(a, b, k);
    } else {
        lemma_first_difference_at(a, b, k, (n - 1) as usize);
    }
}

/// The difference `a - b` of two bytes.
fn byte_difference(a: u8, b: u8) -> (r: i32)
    ensures
        r == a - b,
{
    a as i32 - b as i32
}

/// Any `n` bytes compare equal to themselves.
pub proof fn lemma_same_bytes_no_difference(a: Seq<u8>, n: usize)
    ensures
        first_difference(a, a, n) == 0,
{
    lemma_agree_no_difference(a, a, n);
}

/// Swapping the two buffers negates the comparison.
pub proof fn lemma_difference_antisymmetric(a: Seq<u8>, b: Seq<u8>, n: usize)
    ensures
        first_difference(a, b, n) == -first_difference(b, a, n),
    decreases n,
{
    if n > 0 {
        lemma_difference_antisymmetric(a, b, (n - 1) as usize);
    }
}

/// After `memcpy` of `n` bytes, the first `n` bytes of the destination compare
/// equal to the source.
pub proof fn lemma_copy_then_compare(dest: Seq<u8>, src: Seq<u8>, n: usize)
    requires
        n <= dest.len(),
        n <= src.len(),
    ensures
        first_difference(memcpy_spec(dest, src, n as int), src, n) == 0,
{
    lemma_agree_no_difference(memcpy_spec(dest, src, n as int), src, n);
}

/// Whether or not the ranges overlap, after `memmove` the destination range
/// holds what the source range held before, and every other byte is unchanged.
pub proof fn lemma_move_places_source(buf: Seq<u8>, dest: int, src: int, n: int)
    requires
        0 <= dest,
        0 <= src,
        0 <= n,
        dest + n <= buf.len(),
        src + n <= buf.len(),
    ensures
        memmove_spec(buf, dest, src, n).subrange(dest, dest + n) == buf.subrange(src, src + n),
        forall|i: int| 0 <= i < buf.len() && !(dest <= i < dest + n) ==> memmove_spec(buf, dest, src, n)[i] == buf[i],
{
    assert(memmove_spec(buf, dest, src, n).subrange(dest, dest + n) =~= buf.subrange(src, src + n));
}

/// Sets the first `n` bytes of `s` to the low byte of `c`.
pub fn memset(s: &mut [u8], c: i32, n: usize)
    requires
        n <= old(s)@.len(),
    ensures
        final(s)@ == memset_spec(old(s)@, c, n as int),
{
    let b = c as u8;
    let mut i: usize = 0;
    while i < n
        invariant
            i <= n,
            n <= s@.len(),
            s@.len() == old(s)@.len(),
            b == c as u8,
            forall|j: int| 0 <= j < i ==> s@[j] == b,
            forall|j: int| i <= j < s@.len() ==> s@[j] == old(s)@[j],
        decreases n - i,
    {
        s[i] = b;
        i = i + 1;
    }
    assert(s@ =~= memset_spec(old(s)@, c, n as int));
}

/// Copies the first `n` bytes of `src` to the start of `dest`.
pub fn memcpy(dest: &mut [u8], src: &[u8], n: usize)
    requires
        n <= old(dest)@.len(),
        n <= src@.len(),
    ensures
        final(dest)@ == memcpy_spec(old(dest)@, src@, n as int),
{
    let mut i: usize = 0;
    while i < n
        invariant
            i <= n,
            n <= dest@.len(),
            n <= src@.len(),
            dest@.len() == old(dest)@.len(),
            forall|j: int| 0 <= j < i ==> dest@[j] == src@[j],
            forall|j: int| i <= j < dest@.len() ==> dest@[j] == old(dest)@[j],
        decreases n - i,
    {
        dest[i] = src[i];
        i = i + 1;
    }
    assert(dest@ =~= memcpy_spec(old(dest)@, src@, n as int));
}

/// Copies the `n` bytes at offset `src` of `buf` to offset `dest`; the two
/// ranges may overlap. The copy runs forwards when the destination lies
/// before the source and backwards otherwise, so that no byte is read after
/// it has been overwritten.
pub fn memmove(buf: &mut [u8], dest: usize, src: usize, n: usize)
    requires
        dest + n <= old(buf)@.len(),
        src + n <= old(buf)@.len(),
    ensures
        final(buf)@ == memmove_spec(old(buf)@, dest as int, src as int, n as int),
{
    let ghost start = buf@;
    let len = buf.len();
    if dest < src {
        let mut i: usize = 0;
        while i < n
            invariant
                dest < src,
                i <= n,
                dest + n <= start.len(),
                src + n <= start.len(),
                start.len() == len,
                buf@.len() == start.len(),
                forall|j: int| dest <= j < dest + i ==> buf@[j] == start[src + (j - dest)],
                forall|j: int| 0 <= j < buf@.len() && !(dest <= j < dest + i) ==> buf@[j] == start[j],
            decreases n - i,
        {
            let v = buf[src + i];
            buf[dest + i] = v;
            i = i + 1;
        }
    } else {
        let mut i: usize = n;
        while i > 0
            invariant
                src <= dest,
                i <= n,
                dest + n <= start.len(),
                src + n <= start.len(),
                start.len() == len,
                buf@.len() == start.len(),
                forall|j: int| dest + i <= j < dest + n ==> buf@[j] == start[src + (j - dest)],
                forall|j: int| 0 <= j < buf@.len() && !(dest + i <= j < dest + n) ==> buf@[j] == start[j],
            decreases i,
        {
            i = i - 1;
            let v = buf[src + i];
            buf[dest + i] = v;
        }
    }
    assert(buf@ =~= memmove_spec(start, dest as int, src as int, n as int));
}

/// Compares the first `n` bytes of `s1` and `s2`: the difference of the first
/// pair that differs, or 0 when all `n` agree.
pub fn memcmp(s1: &[u8], s2: &[u8], n: usize) -> (r: i32)
    requires
        n <= s1@.len(),
        n <= s2@.len(),
    ensures
        r == first_difference(s1@, s2@, n),
{
    let mut i: usize = 0;
    while i < n
        invariant
            i <= n,
            n <= s1@.len(),
            n <= s2@.len(),
            agree_before(s1@, s2@, i),
        decreases n - i,
    {
        let a = s1[i];
        let b = s2[i];
        if a != b {
            proof {
                lemma_first_difference_at(s1@, s2@, i, n);
            }
            return byte_difference(a, b);
        }
        i = i + 1;
    }
    proof {
        lemma_agree_no_difference(s1@, s2@, n);
    }
    0
}

} // verus!
