use vstd::prelude::*;

verus! {

/// `n` copies of `fill`.
pub open spec fn filled<T>(n: nat, fill: T) -> Seq<T> {
    Seq::new(n, |i: int| fill)
}

/// Every one of `chs` holds as many samples as the first, and there is at least
/// one.
pub open spec fn uniform<T>(chs: Seq<Vec<T>>) -> bool {
    &&& chs.len() > 0
    &&& forall|c: int| 0 <= c < chs.len() ==> #[trigger] chs[c]@.len() == chs[0]@.len()
}

/// A vector of `n` copies of `fill`.
pub fn filled_vec<T: Copy>(n: usize, fill: T) -> (r: Vec<T>)
    ensures
        r@ == filled(n as nat, fill),
{
    let mut r: Vec<T> = Vec::new();
    let mut i: usize = 0;
    while i < n
        invariant
            i <= n,
            r@ == filled(i as nat, fill),
        decreases n - i,
    {
        r.push(fill);
        i = i + 1;
        assert(r@ =~= filled(i as nat, fill));
    }
    r
}

/// The first `take` samples of `v`, followed by copies of `fill` up to `size`
/// samples.
pub fn padded_prefix<T: Copy>(v: &Vec<T>, take: usize, size: usize, fill: T) -> (r: Vec<T>)
    requires
        take <= size,
        take <= v@.len(),
    ensures
        r@ == v@.take(take as int) + filled((size - take) as nat, fill),
{
    let mut r: Vec<T> = Vec::new();
    let mut i: usize = 0;
    while i < take
        invariant
            i <= take,
            take <= v@.len(),
            r@ == v@.take(i as int),
        decreases take - i,
    {
        r.push(v[i]);
        i = i + 1;
        assert(r@ =~= v@.take(i as int));
    }
    let mut pad = filled_vec(size - take, fill);
    r.append(&mut pad);
    r
}

/// Removes the first `k` samples of `v`.
pub fn drop_front<T>(v: &mut Vec<T>, k: usize)
    requires
        k <= old(v)@.len(),
    ensures
        final(v)@ == old(v)@.skip(k as int),
{
    let tail = v.split_off(k);
    *v = tail;
}

/// Puts `n` copies of `fill` in front of `v`.
pub fn prepend_filled<T: Copy>(v: &mut Vec<T>, n: usize, fill: T)
    ensures
        final(v)@ == filled(n as nat, fill) + old(v)@,
{
    let mut front = filled_vec(n, fill);
    front.append(v);
    *v = front;
}

/// Appends every sample of `w` to `v`.
pub fn append_copy<T: Copy>(v: &mut Vec<T>, w: &Vec<T>)
    ensures
        final(v)@ == old(v)@ + w@,
{
    let mut i: usize = 0;
    while i < w.len()
        invariant
            i <= w@.len(),
            v@ == old(v)@ + w@.take(i as int),
        decreases w@.len() - i,
    {
        v.push(w[i]);
        i = i + 1;
        assert(v@ =~= old(v)@ + w@.take(i as int));
    }
    assert(w@.take(w@.len() as int) =~= w@);
}

/// Appends `block[c]` to channel `c` of `chs`.
pub fn append_block<T: Copy>(chs: &mut Vec<Vec<T>>, block: &Vec<Vec<T>>)
    requires
        uniform(old(chs)@),
        uniform(block@),
        block@.len() == old(chs)@.len(),
    ensures
        uniform(final(chs)@),
        final(chs)@.len() == old(chs)@.len(),
        forall|c: int|
            0 <= c < old(chs)@.len() ==> #[trigger] final(chs)@[c]@ == old(chs)@[c]@ + block@[c]@,
{
    let n = chs.len();
    let ghost old_chs = chs@;
    let mut c: usize = 0;
    while c < n
        invariant
            n == chs@.len(),
            old_chs.len() == n,
            block@.len() == n,
            c <= n,
            forall|j: int| 0 <= j < c ==> #[trigger] chs@[j]@ == old_chs[j]@ + block@[j]@,
            forall|j: int| c <= j < n ==> #[trigger] chs@[j] == old_chs[j],
        decreases n - c,
    {
        append_copy(&mut chs[c], &block[c]);
        c = c + 1;
    }
    assert forall|j: int| 0 <= j < n implies #[trigger] chs@[j]@.len() == chs@[0]@.len() by {
        assert(old_chs[j]@.len() == old_chs[0]@.len());
        assert(block@[j]@.len() == block@[0]@.len());
        assert(chs@[j]@ == old_chs[j]@ + block@[j]@);
        assert(chs@[0]@ == old_chs[0]@ + block@[0]@);
    }
}

/// Splits off the first `k` samples of every channel: they are handed back,
/// each followed by copies of `fill` up to `size` samples, and removed from
/// `chs`.
pub fn split_front<T: Copy>(chs: &mut Vec<Vec<T>>, k: usize, size: usize, fill: T) -> (out: Vec<
    Vec<T>,
>)
    requires
        uniform(old(chs)@),
        k <= size,
        k <= old(chs)@[0]@.len(),
    ensures
        uniform(final(chs)@),
        uniform(out@),
        final(chs)@.len() == old(chs)@.len(),
        out@.len() == old(chs)@.len(),
        forall|c: int|
            0 <= c < old(chs)@.len() ==> #[trigger] out@[c]@ == old(chs)@[c]@.take(k as int)
                + filled((size - k) as nat, fill),
        forall|c: int|
            0 <= c < old(chs)@.len() ==> #[trigger] final(chs)@[c]@ == old(chs)@[c]@.skip(k as int),
{
    let n = chs.len();
    let ghost old_chs = chs@;
    let mut out: Vec<Vec<T>> = Vec::new();
    let mut c: usize = 0;
    while c < n
        invariant
            n == chs@.len(),
            old_chs.len() == n,
            uniform(old_chs),
            k <= old_chs[0]@.len(),
            k <= size,
            c <= n,
            out@.len() == c,
            forall|j: int|
                0 <= j < c ==> #[trigger] out@[j]@ == old_chs[j]@.take(k as int) + filled(
                    (size - k) as nat,
                    fill,
                ),
            forall|j: int| 0 <= j < c ==> #[trigger] chs@[j]@ == old_chs[j]@.skip(k as int),
            forall|j: int| c <= j < n ==> #[trigger] chs@[j] == old_chs[j],
        decreases n - c,
    {
        assert(old_chs[c as int]@.len() == old_chs[0]@.len());
        let piece = padded_prefix(&chs[c], k, size, fill);
        out.push(piece);
        drop_front(&mut chs[c], k);
        c = c + 1;
    }
    assert forall|j: int| 0 <= j < n implies #[trigger] chs@[j]@.len() == chs@[0]@.len() by {
        assert(old_chs[j]@.len() == old_chs[0]@.len());
        assert(chs@[j]@ == old_chs[j]@.skip(k as int));
        assert(chs@[0]@ == old_chs[0]@.skip(k as int));
    }
    assert forall|j: int| 0 <= j < n implies #[trigger] out@[j]@.len() == out@[0]@.len() by {
        assert(out@[j]@ == old_chs[j]@.take(k as int) + filled((size - k) as nat, fill));
        assert(out@[0]@ == old_chs[0]@.take(k as int) + filled((size - k) as nat, fill));
        assert(old_chs[j]@.len() == old_chs[0]@.len());
    }
    out
}

/// Puts `n` copies of `fill` in front of every channel.
pub fn prepend_block<T: Copy>(chs: &mut Vec<Vec<T>>, n: usize, fill: T)
    requires
        uniform(old(chs)@),
    ensures
        uniform(final(chs)@),
        final(chs)@.len() == old(chs)@.len(),
        forall|c: int|
            0 <= c < old(chs)@.len() ==> #[trigger] final(chs)@[c]@ == filled(n as nat, fill) + old(
                chs,
            )@[c]@,
{
    let m = chs.len();
    let ghost old_chs = chs@;
    let mut c: usize = 0;
    while c < m
        invariant
            m == chs@.len(),
            old_chs.len() == m,
            c <= m,
            forall|j: int| 0 <= j < c ==> #[trigger] chs@[j]@ == filled(n as nat, fill) + old_chs[j]@,
            forall|j: int| c <= j < m ==> #[trigger] chs@[j] == old_chs[j],
        decreases m - c,
    {
        prepend_filled(&mut chs[c], n, fill);
        c = c + 1;
    }
    assert forall|j: int| 0 <= j < m implies #[trigger] chs@[j]@.len() == chs@[0]@.len() by {
        assert(old_chs[j]@.len() == old_chs[0]@.len());
        assert(chs@[j]@ == filled(n as nat, fill) + old_chs[j]@);
        assert(chs@[0]@ == filled(n as nat, fill) + old_chs[0]@);
    }
}

/// `n` empty channels.
pub fn empty_channels<T>(n: usize) -> (chs: Vec<Vec<T>>)
    ensures
        chs@.len() == n,
        forall|c: int| 0 <= c < n ==> #[trigger] chs@[c]@.len() == 0,
{
    let mut chs: Vec<Vec<T>> = Vec::new();
    let mut i: usize = 0;
    while i < n
        invariant
            i <= n,
            chs@.len() == i,
            forall|c: int| 0 <= c < i ==> #[trigger] chs@[c]@.len() == 0,
        decreases n - i,
    {
        chs.push(Vec::new());
        i = i + 1;
    }
    chs
}

} // verus!
