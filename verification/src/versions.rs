use crate::prefs::chars_of;
use vstd::prelude::*;

verus! {

/// A character that may appear in the name of a version folder.
pub open spec fn is_version_char(c: char) -> bool {
    ('0' <= c && c <= '9') || c == '.'
}

/// A version folder name consists of digits and dots only.
pub open spec fn is_version_name(s: Seq<char>) -> bool {
    forall|i: int| 0 <= i < s.len() ==> #[trigger] is_version_char(s[i])
}

/// Every character of `d` is a decimal digit.
pub open spec fn is_digit_string(d: Seq<char>) -> bool {
    forall|i: int| 0 <= i < d.len() ==> '0' <= #[trigger] d[i] && d[i] <= '9'
}

/// The decimal value of a string of digits.
pub open spec fn decimal_value(d: Seq<char>) -> int
    decreases d.len(),
{
    if d.len() == 0 {
        0
    } else {
        decimal_value(d.drop_last()) * 10 + (d.last() as int - '0' as int)
    }
}

/// The number of one dot-separated part of a version: empty when the part is
/// empty or its value does not fit in `u32`.
pub open spec fn part_number(part: Seq<char>) -> Seq<u32> {
    if part.len() > 0 && decimal_value(part) <= u32::MAX {
        seq![decimal_value(part) as u32]
    } else {
        Seq::empty()
    }
}

/// Reading a version name from the left: the numbers of the finished parts and
/// the digits of the part being read.
pub open spec fn scan_version(s: Seq<char>) -> (Seq<u32>, Seq<char>)
    decreases s.len(),
{
    if s.len() == 0 {
        (Seq::empty(), Seq::empty())
    } else {
        let (done, part) = scan_version(s.drop_last());
        if s.last() == '.' {
            (done + part_number(part), Seq::empty())
        } else {
            (done, part.push(s.last()))
        }
    }
}

/// The numbers of a version name: its dot-separated parts read as decimal
/// numbers, leaving out empty parts and parts too large for `u32`.
pub open spec fn version_numbers(s: Seq<char>) -> Seq<u32> {
    let (done, part) = scan_version(s);
    done + part_number(part)
}

/// Lexicographic order on number sequences: `a` comes before `b`.
pub open spec fn lex_less(a: Seq<u32>, b: Seq<u32>) -> bool
    decreases a.len(),
{
    if b.len() == 0 {
        false
    } else if a.len() == 0 {
        true
    } else if a[0] != b[0] {
        a[0] < b[0]
    } else {
        lex_less(a.drop_first(), b.drop_first())
    }
}

/// No sequence comes before itself.
pub proof fn lemma_lex_irreflexive(a: Seq<u32>)
    ensures
        !lex_less(a, a),
    decreases a.len(),
{
    if a.len() > 0 {
        lemma_lex_irreflexive(a.drop_first());
    }
}

/// The order is transitive.
pub proof fn lemma_lex_transitive(a: Seq<u32>, b: Seq<u32>, c: Seq<u32>)
    requires
        lex_less(a, b),
        lex_less(b, c),
    ensures
        lex_less(a, c),
    decreases a.len(),
{
    if a.len() > 0 && b.len() > 0 && c.len() > 0 && a[0] == b[0] && b[0] == c[0] {
        lemma_lex_transitive(a.drop_first(), b.drop_first(), c.drop_first());
    }
}

/// Of two different sequences, one comes before the other.
pub proof fn lemma_lex_total(a: Seq<u32>, b: Seq<u32>)
    requires
        !lex_less(a, b),
        !lex_less(b, a),
    ensures
        a == b,
    decreases a.len(),
{
    if a.len() > 0 && b.len() > 0 {
        lemma_lex_total(a.drop_first(), b.drop_first());
        assert(a =~= seq![a[0]] + a.drop_first());
        assert(b =~= seq![b[0]] + b.drop_first());
    } else {
        assert(a =~= b);
    }
}

/// Whether a folder name is that of a version folder: digits and dots only.
pub fn is_version_dir_name(name: &str) -> (r: bool)
    ensures
        r == is_version_name(name@),
{
    let chars = chars_of(name);
    let mut i: usize = 0;
    while i < chars.len()
        invariant
            i <= chars@.len(),
            chars@ == name@,
            forall|j: int| 0 <= j < i ==> #[trigger] is_version_char(chars@[j]),
        decreases chars@.len() - i,
    {
        let c = chars[i];
        if !(('0' <= c && c <= '9') || c == '.') {
            assert(!is_version_char(name@[i as int]));
            return false;
        }
        i = i + 1;
    }
    true
}

proof fn lemma_decimal_grows(d: Seq<char>, c: char)
    requires
        '0' <= c <= '9',
        decimal_value(d) >= 0,
    ensures
        decimal_value(d.push(c)) == decimal_value(d) * 10 + (c as int - '0' as int),
        decimal_value(d.push(c)) >= decimal_value(d),
{
    assert(d.push(c).drop_last() =~= d);
}

proof fn lemma_decimal_nonneg(d: Seq<char>)
    requires
        is_digit_string(d),
    ensures
        decimal_value(d) >= 0,
    decreases d.len(),
{
    if d.len() > 0 {
        assert(is_digit_string(d.drop_last())) by {
            assert forall|i: int| 0 <= i < d.len() - 1 implies '0' <= #[trigger] d.drop_last()[i]
                && d.drop_last()[i] <= '9' by {
                assert(d.drop_last()[i] == d[i]);
            }
        }
        lemma_decimal_nonneg(d.drop_last());
        assert('0' <= d.last() <= '9');
    }
}

/// The numbers of a version folder name (see `version_numbers`).
pub fn parse_version(name: &str) -> (r: Vec<u32>)
    requires
        is_version_name(name@),
    ensures
        r@ == version_numbers(name@),
{
    let chars = chars_of(name);
    let mut done: Vec<u32> = Vec::new();
    let mut value: u64 = 0;
    let mut big = false;
    let mut digits: usize = 0;
    let ghost mut part: Seq<char> = Seq::empty();
    let mut i: usize = 0;
    while i < chars.len()
        invariant
            i <= chars@.len(),
            chars@ == name@,
            is_version_name(name@),
            scan_version(chars@.take(i as int)) == (done@, part),
            is_digit_string(part),
            digits == part.len(),
            digits <= i,
            big == (decimal_value(part) > u32::MAX),
            !big ==> value == decimal_value(part),
        decreases chars@.len() - i,
    {
        let c = chars[i];
        let ghost before = chars@.take(i as int);
        assert(chars@.take(i as int + 1).drop_last() =~= before);
        assert(chars@.take(i as int + 1).last() == c);
        assert(is_version_char(chars@[i as int]));
        proof {
            lemma_decimal_nonneg(part);
        }
        if c == '.' {
            if digits > 0 && !big {
                done.push(value as u32);
            }
            proof {
                assert(done@ =~= scan_version(before).0 + part_number(part));
                part = Seq::empty();
            }
            value = 0;
            big = false;
            digits = 0;
        } else {
            let d: u64 = (c as u32 - '0' as u32) as u64;
            proof {
                lemma_decimal_grows(part, c);
            }
            if !big {
                let nv: u64 = value * 10 + d;
                if nv > 0xffff_ffff {
                    big = true;
                }
                value = nv;
            }
            proof {
                part = part.push(c);
                assert forall|j: int| 0 <= j < part.len() implies '0' <= #[trigger] part[j] && part[j]
                    <= '9' by {
                    if j < part.len() - 1 {
                        assert(part[j] == part.drop_last()[j]);
                    }
                }
            }
            digits = digits + 1;
        }
        i = i + 1;
    }
    assert(chars@.take(chars@.len() as int) =~= chars@);
    if digits > 0 && !big {
        done.push(value as u32);
    }
    proof {
        lemma_decimal_nonneg(part);
        assert(done@ =~= version_numbers(name@));
    }
    done
}

/// Whether the numbers `a` come before the numbers `b` (see `lex_less`).
pub fn numbers_less(a: &Vec<u32>, b: &Vec<u32>) -> (r: bool)
    ensures
        r == lex_less(a@, b@),
{
    let mut i: usize = 0;
    assert(a@.skip(0) =~= a@);
    assert(b@.skip(0) =~= b@);
    loop
        invariant
            i <= a@.len(),
            i <= b@.len(),
            lex_less(a@, b@) == lex_less(a@.skip(i as int), b@.skip(i as int)),
        decreases a@.len() - i,
    {
        if i == b.len() {
            return false;
        }
        if i == a.len() {
            return true;
        }
        if a[i] != b[i] {
            return a[i] < b[i];
        }
        assert(a@.skip(i as int).drop_first() =~= a@.skip(i as int + 1));
        assert(b@.skip(i as int).drop_first() =~= b@.skip(i as int + 1));
        i = i + 1;
    }
}

/// Some position of `perm` maps to `m`.
pub open spec fn uses_index(perm: Seq<int>, m: int) -> bool {
    exists|q: int| 0 <= q < perm.len() && #[trigger] perm[q] == m
}

/// `r` holds the names of `v`, moved by the index map `perm`: `r[q]` is
/// `v[perm[q]]`, and every index of `v` is used exactly once.
pub open spec fn arranged_by(r: Seq<String>, v: Seq<String>, perm: Seq<int>) -> bool {
    &&& r.len() == v.len()
    &&& perm.len() == r.len()
    &&& forall|q: int| 0 <= q < r.len() ==> 0 <= #[trigger] perm[q] < v.len() && r[q] == v[perm[q]]
    &&& forall|q1: int, q2: int|
        0 <= q1 < r.len() && 0 <= q2 < r.len() && q1 != q2 ==> #[trigger] perm[q1] != #[trigger] perm[q2]
    &&& forall|m: int| 0 <= m < v.len() ==> #[trigger] uses_index(perm, m)
}

/// `r` is ordered from the newest version to the oldest, and names with equal
/// numbers keep the order they had in `v`.
pub open spec fn newest_first(r: Seq<String>, perm: Seq<int>) -> bool {
    &&& forall|q1: int, q2: int|
        0 <= q1 < q2 < r.len() ==> !lex_less(
            version_numbers(#[trigger] r[q1]@),
            version_numbers(#[trigger] r[q2]@),
        )
    &&& forall|q1: int, q2: int|
        0 <= q1 < q2 < r.len() && version_numbers(#[trigger] r[q1]@) == version_numbers(
            #[trigger] r[q2]@,
        ) ==> perm[q1] < perm[q2]
}

/// Orders version folder names from the newest version to the oldest, by their
/// numbers; names with equal numbers keep their order.
pub fn sort_versions_newest_first(versions: Vec<String>) -> (r: Vec<String>)
    requires
        forall|i: int| 0 <= i < versions@.len() ==> is_version_name(#[trigger] versions@[i]@),
    ensures
        exists|perm: Seq<int>| arranged_by(r@, versions@, perm) && newest_first(r@, perm),
{
    let n = versions.len();
    let mut out: Vec<String> = Vec::new();
    let mut keys: Vec<Vec<u32>> = Vec::new();
    let ghost mut perm: Seq<int> = Seq::empty();
    let mut i: usize = 0;
    while i < n
        invariant
            n == versions@.len(),
            forall|k: int| 0 <= k < versions@.len() ==> is_version_name(#[trigger] versions@[k]@),
            i <= n,
            out@.len() == i,
            keys@.len() == i,
            perm.len() == i,
            forall|q: int| 0 <= q < i ==> #[trigger] keys@[q]@ == version_numbers(out@[q]@),
            forall|q: int| 0 <= q < i ==> 0 <= #[trigger] perm[q] < i && out@[q] == versions@[perm[q]],
            forall|q1: int, q2: int|
                0 <= q1 < i && 0 <= q2 < i && q1 != q2 ==> #[trigger] perm[q1] != #[trigger] perm[q2],
            forall|m: int| 0 <= m < i ==> #[trigger] uses_index(perm, m),
            newest_first(out@, perm),
        decreases n - i,
    {
        let name = versions[i].clone();
        let key = parse_version(name.as_str());
        let mut pos: usize = 0;
        while pos < out.len() && !numbers_less(&keys[pos], &key)
            invariant
                pos <= out@.len(),
                keys@.len() == out@.len(),
                forall|q: int| 0 <= q < pos ==> !lex_less(#[trigger] keys@[q]@, key@),
            decreases out@.len() - pos,
        {
            pos = pos + 1;
        }
        proof {
            let old_out = out@;
            let x = key@;
            // everything at or after `pos` comes strictly before `key`
            assert forall|q: int| pos <= q < old_out.len() implies lex_less(
                version_numbers(#[trigger] old_out[q]@),
                x,
            ) by {
                assert(lex_less(keys@[pos as int]@, x));
                if q > pos {
                    let kp = version_numbers(old_out[pos as int]@);
                    let kq = version_numbers(old_out[q]@);
                    assert(!lex_less(kp, kq));
                    if kp != kq {
                        if !lex_less(kq, kp) {
                            lemma_lex_total(kp, kq);
                        }
                        lemma_lex_transitive(kq, kp, x);
                    }
                }
            }
        }
        let ghost old_out = out@;
        let ghost old_keys = keys@;
        let ghost old_perm = perm;
        out.insert(pos, name);
        keys.insert(pos, key);
        proof {
            perm = old_perm.insert(pos as int, i as int);
            let x = key@;
            assert(version_numbers(out@[pos as int]@) == x);
            assert forall|q: int| 0 <= q < i + 1 implies #[trigger] keys@[q]@ == version_numbers(
                out@[q]@,
            ) by {
                if q < pos {
                } else if q > pos {
                    assert(keys@[q] == old_keys[q - 1]);
                    assert(out@[q] == old_out[q - 1]);
                }
            }
            assert forall|q: int| 0 <= q < i + 1 implies 0 <= #[trigger] perm[q] < i + 1 && out@[q]
                == versions@[perm[q]] by {
                if q < pos {
                    assert(perm[q] == old_perm[q]);
                } else if q > pos {
                    assert(perm[q] == old_perm[q - 1]);
                }
            }
            assert forall|q1: int, q2: int|
                0 <= q1 < i + 1 && 0 <= q2 < i + 1 && q1 != q2 implies #[trigger] perm[q1]
                != #[trigger] perm[q2] by {
                let o1 = if q1 < pos {
                    q1
                } else {
                    q1 - 1
                };
                let o2 = if q2 < pos {
                    q2
                } else {
                    q2 - 1
                };
                if q1 != pos && q2 != pos {
                    assert(perm[q1] == old_perm[o1]);
                    assert(perm[q2] == old_perm[o2]);
                } else if q1 == pos {
                    assert(perm[q2] == old_perm[o2]);
                } else {
                    assert(perm[q1] == old_perm[o1]);
                }
            }
            assert forall|m: int| 0 <= m < i + 1 implies #[trigger] uses_index(perm, m) by {
                if m == i {
                    assert(perm[pos as int] == m);
                } else {
                    assert(uses_index(old_perm, m));
                    let q0 = choose|q: int| 0 <= q < old_perm.len() && #[trigger] old_perm[q] == m;
                    if q0 < pos {
                        assert(perm[q0] == m);
                    } else {
                        assert(perm[q0 + 1] == m);
                    }
                }
            }
            assert forall|q1: int, q2: int| 0 <= q1 < q2 < out@.len() implies !lex_less(
                version_numbers(#[trigger] out@[q1]@),
                version_numbers(#[trigger] out@[q2]@),
            ) by {
                let k1 = version_numbers(out@[q1]@);
                let k2 = version_numbers(out@[q2]@);
                if q1 == pos {
                    assert(out@[q2] == old_out[q2 - 1]);
                    assert(lex_less(k2, x));
                    if lex_less(x, k2) {
                        lemma_lex_transitive(x, k2, x);
                        lemma_lex_irreflexive(x);
                    }
                } else if q2 == pos {
                    assert(out@[q1] == old_out[q1]);
                    assert(!lex_less(keys@[q1]@, x));
                } else {
                    let o1 = if q1 < pos {
                        q1
                    } else {
                        q1 - 1
                    };
                    let o2 = if q2 < pos {
                        q2
                    } else {
                        q2 - 1
                    };
                    assert(out@[q1] == old_out[o1]);
                    assert(out@[q2] == old_out[o2]);
                }
            }
            assert forall|q1: int, q2: int|
                0 <= q1 < q2 < out@.len() && version_numbers(#[trigger] out@[q1]@)
                    == version_numbers(#[trigger] out@[q2]@) implies perm[q1] < perm[q2] by {
                let k1 = version_numbers(out@[q1]@);
                let k2 = version_numbers(out@[q2]@);
                if q1 == pos {
                    assert(out@[q2] == old_out[q2 - 1]);
                    assert(lex_less(k2, x));
                    lemma_lex_irreflexive(x);
                } else if q2 == pos {
                    assert(perm[q1] == old_perm[q1]);
                } else {
                    let o1 = if q1 < pos {
                        q1
                    } else {
                        q1 - 1
                    };
                    let o2 = if q2 < pos {
                        q2
                    } else {
                        q2 - 1
                    };
                    assert(out@[q1] == old_out[o1]);
                    assert(out@[q2] == old_out[o2]);
                    assert(perm[q1] == old_perm[o1]);
                    assert(perm[q2] == old_perm[o2]);
                }
            }
        }
        i = i + 1;
    }
    proof {
        assert(arranged_by(out@, versions@, perm));
    }
    out
}

} // verus!
