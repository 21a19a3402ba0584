//! Path utilities: purely lexical path normalization.

use vstd::prelude::*;
use vstd::slice::{slice_subrange, slice_to_vec};

verus! {

/// The path separator byte, `/`.
pub const SEP: u8 = 47;

/// The byte of a `.` component.
pub const DOT: u8 = 46;

/// The single-dot component.
pub open spec fn spec_dot() -> Seq<u8> {
    seq![DOT]
}

/// The double-dot (parent directory) component.
pub open spec fn spec_dotdot() -> Seq<u8> {
    seq![DOT, DOT]
}

/// Whether a path is rooted (begins with a separator).
pub open spec fn spec_rooted(s: Seq<u8>) -> bool {
    s.len() > 0 && s[0] == SEP
}

/// The index of the first separator in `s`, or `s.len()` if none occurs.
pub open spec fn spec_first_sep(s: Seq<u8>) -> int
    decreases s.len(),
{
    if s.len() == 0 {
        0
    } else if s[0] == SEP {
        0
    } else {
        1 + spec_first_sep(s.skip(1))
    }
}

/// The non-empty segments of a path, in order: repeated separators count
/// as one, and leading or trailing separators contribute nothing.
pub open spec fn spec_components(s: Seq<u8>) -> Seq<Seq<u8>>
    decreases s.len(),
{
    if s.len() == 0 {
        Seq::empty()
    } else if s[0] == SEP {
        spec_components(s.skip(1))
    } else {
        let k = spec_first_sep(s);
        if 1 <= k <= s.len() {
            seq![s.take(k)] + spec_components(s.skip(k))
        } else {
            Seq::empty()
        }
    }
}

/// The components left after lexical normalization: `.` disappears, `..`
/// removes the component before it where one exists, stays at the front
/// of a relative path, and disappears at the root.
pub open spec fn spec_reduce(rooted: bool, comps: Seq<Seq<u8>>) -> Seq<Seq<u8>>
    decreases comps.len(),
{
    if comps.len() == 0 {
        Seq::empty()
    } else {
        let prev = spec_reduce(rooted, comps.drop_last());
        let c = comps.last();
        if c == spec_dot() {
            prev
        } else if c == spec_dotdot() {
            if prev.len() == 0 {
                if rooted {
                    prev
                } else {
                    prev.push(c)
                }
            } else if prev.last() == spec_dotdot() {
                prev.push(c)
            } else {
                prev.drop_last()
            }
        } else {
            prev.push(c)
        }
    }
}

/// Components joined with single separators.
pub open spec fn spec_join(comps: Seq<Seq<u8>>) -> Seq<u8>
    decreases comps.len(),
{
    if comps.len() == 0 {
        Seq::empty()
    } else if comps.len() == 1 {
        comps[0]
    } else {
        spec_join(comps.drop_last()) + seq![SEP] + comps.last()
    }
}

/// A normalized path written back out: a rooted path keeps its leading
/// separator (and is just the separator when nothing else remains), and
/// an empty relative path becomes `.`.
pub open spec fn spec_assemble(rooted: bool, comps: Seq<Seq<u8>>) -> Seq<u8> {
    if rooted {
        seq![SEP] + spec_join(comps)
    } else if comps.len() == 0 {
        spec_dot()
    } else {
        spec_join(comps)
    }
}

/// What `clean` returns: the path normalized by purely lexical rules.
pub open spec fn spec_clean(s: Seq<u8>) -> Seq<u8> {
    spec_assemble(spec_rooted(s), spec_reduce(spec_rooted(s), spec_components(s)))
}

/// Splits a path into its non-empty segments.
fn components(path: &[u8]) -> (r: Vec<Vec<u8>>)
    ensures
        r@.map_values(|c: Vec<u8>| c@) == spec_components(path@),
{
    let n: usize = path.len();
    let mut out: Vec<Vec<u8>> = Vec::new();
    let mut i: usize = 0;
    proof {
        assert(path@.skip(0) =~= path@);
        assert(out@.map_values(|c: Vec<u8>| c@) + spec_components(path@) =~= spec_components(
            path@,
        ));
    }
    while i < n
        invariant
            n == path@.len(),
            0 <= i <= n,
            spec_components(path@) == out@.map_values(|c: Vec<u8>| c@) + spec_components(
                path@.skip(i as int),
            ),
        decreases n - i,
    {
        let ghost pre = out@.map_values(|c: Vec<u8>| c@);
        if path[i] == SEP {
            proof {
                assert(path@.skip(i as int).skip(1) =~= path@.skip(i as int + 1));
            }
            i = i + 1;
        } else {
            let start = i;
            let mut j: usize = i;
            while j < n && path[j] != SEP
                invariant
                    n == path@.len(),
                    0 <= start <= j <= n,
                    forall|m: int| start <= m < j ==> path@[m] != SEP,
                decreases n - j,
            {
                j = j + 1;
            }
            let comp = slice_subrange(path, start, j);
            out.push(slice_to_vec(comp));
            proof {
                let rest = path@.skip(start as int);
                lemma_first_sep_position(rest, j - start);
                assert(rest.take(j - start) =~= path@.subrange(start as int, j as int));
                assert(rest.skip(j - start) =~= path@.skip(j as int));
                assert(out@.map_values(|c: Vec<u8>| c@) =~= pre + seq![comp@]);
                assert(pre + (seq![comp@] + spec_components(path@.skip(j as int))) =~= pre + seq![
                    comp@,
                ] + spec_components(path@.skip(j as int)));
            }
            i = j;
        }
    }
    proof {
        assert(path@.skip(n as int) =~= Seq::<u8>::empty());
        assert(out@.map_values(|c: Vec<u8>| c@) + Seq::<Seq<u8>>::empty() =~= out@.map_values(
            |c: Vec<u8>| c@,
        ));
    }
    out
}

/// If the first `k` bytes of `s` are not separators and byte `k` is one
/// (or the path ends there), then `k` is `spec_first_sep(s)`.
proof fn lemma_first_sep_position(s: Seq<u8>, k: int)
    requires
        0 <= k <= s.len(),
        forall|m: int| 0 <= m < k ==> s[m] != SEP,
        k < s.len() ==> s[k] == SEP,
    ensures
        spec_first_sep(s) == k,
    decreases k,
{
    if k > 0 {
        lemma_first_sep_position(s.skip(1), k - 1);
    }
}

/// True of the single-dot component.
fn is_dot(c: &Vec<u8>) -> (r: bool)
    ensures
        r == (c@ == spec_dot()),
{
    let r = c.len() == 1 && c[0] == DOT;
    proof {
        if r {
            assert(c@ =~= spec_dot());
        }
        if c@ == spec_dot() {
            assert(c@.len() == 1);
        }
    }
    r
}

/// True of the double-dot component.
fn is_dotdot(c: &Vec<u8>) -> (r: bool)
    ensures
        r == (c@ == spec_dotdot()),
{
    let r = c.len() == 2 && c[0] == DOT && c[1] == DOT;
    proof {
        if r {
            assert(c@ =~= spec_dotdot());
        }
        if c@ == spec_dotdot() {
            assert(c@.len() == 2);
        }
    }
    r
}

/// Applies the normalization rules to a component list.
fn reduce(rooted: bool, comps: &Vec<Vec<u8>>) -> (r: Vec<Vec<u8>>)
    ensures
        r@.map_values(|c: Vec<u8>| c@) == spec_reduce(rooted, comps@.map_values(|c: Vec<u8>| c@)),
{
    let ghost all = comps@.map_values(|c: Vec<u8>| c@);
    let n: usize = comps.len();
    let mut out: Vec<Vec<u8>> = Vec::new();
    let mut t: usize = 0;
    while t < n
        invariant
            n == comps@.len(),
            all == comps@.map_values(|c: Vec<u8>| c@),
            0 <= t <= n,
            out@.map_values(|c: Vec<u8>| c@) == spec_reduce(rooted, all.take(t as int)),
        decreases n - t,
    {
        let ghost pre = out@.map_values(|c: Vec<u8>| c@);
        proof {
            assert(all.take(t as int + 1).drop_last() =~= all.take(t as int));
            assert(all.take(t as int + 1).last() == all[t as int]);
        }
        let c = &comps[t];
        if is_dot(c) {
            // dropped: `.` is always redundant
        } else if is_dotdot(c) {
            let keep: bool = if out.len() == 0 {
                !rooted
            } else {
                is_dotdot(&out[out.len() - 1])
            };
            if keep {
                out.push(slice_to_vec(c.as_slice()));
                proof {
                    assert(out@.map_values(|x: Vec<u8>| x@) =~= pre.push(all[t as int]));
                }
            } else if out.len() > 0 {
                let _ = out.pop();
                proof {
                    assert(out@.map_values(|x: Vec<u8>| x@) =~= pre.drop_last());
                }
            }
        } else {
            out.push(slice_to_vec(c.as_slice()));
            proof {
                assert(out@.map_values(|x: Vec<u8>| x@) =~= pre.push(all[t as int]));
            }
        }
        t = t + 1;
    }
    proof {
        assert(all.take(n as int) =~= all);
    }
    out
}

/// Writes a component list back out as a path.
fn assemble(rooted: bool, comps: &Vec<Vec<u8>>) -> (r: Vec<u8>)
    ensures
        r@ == spec_assemble(rooted, comps@.map_values(|c: Vec<u8>| c@)),
{
    let ghost all = comps@.map_values(|c: Vec<u8>| c@);
    let n: usize = comps.len();
    let mut out: Vec<u8> = Vec::new();
    if rooted {
        out.push(SEP);
    } else if n == 0 {
        out.push(DOT);
        proof {
            assert(out@ =~= spec_dot());
        }
        return out;
    }
    let ghost prefix = out@;
    let mut t: usize = 0;
    while t < n
        invariant
            n == comps@.len(),
            all == comps@.map_values(|c: Vec<u8>| c@),
            0 <= t <= n,
            prefix == if rooted { seq![SEP] } else { Seq::<u8>::empty() },
            out@ == prefix + spec_join(all.take(t as int)),
        decreases n - t,
    {
        proof {
            assert(all.take(t as int + 1).drop_last() =~= all.take(t as int));
            assert(all.take(t as int + 1).last() == all[t as int]);
            if t == 0 {
                assert(all.take(1)[0] == all[0]);
            }
        }
        let ghost pre = out@;
        if t > 0 {
            out.push(SEP);
        }
        let c = &comps[t];
        let mut b: usize = 0;
        let m: usize = c.len();
        let ghost mid = out@;
        while b < m
            invariant
                m == c@.len(),
                0 <= b <= m,
                out@ == mid + c@.take(b as int),
            decreases m - b,
        {
            out.push(c[b]);
            proof {
                assert(mid + c@.take(b as int + 1) =~= (mid + c@.take(b as int)).push(c@[b as int]));
            }
            b = b + 1;
        }
        proof {
            assert(c@.take(m as int) =~= c@);
            if t == 0 {
                assert(out@ =~= prefix + spec_join(all.take(1)));
            } else {
                assert(out@ =~= prefix + (spec_join(all.take(t as int)) + seq![SEP] + all[t as int]));
            }
        }
        t = t + 1;
    }
    proof {
        assert(all.take(n as int) =~= all);
        if rooted {
            assert(out@ =~= seq![SEP] + spec_join(all));
        }
    }
    out
}

/// Normalizes a path using purely lexical analysis.
///
/// The following normalization rules are applied iteratively:
///
///   * Multiple contiguous path separators are replaced with a single
///     separator.
///   * Current directory components (`.`) are removed.
///   * Parent directory components (`..`) that do not occur at the
///     beginning of the path are removed along with the preceding
///     component.
///   * Parent directory components at the start of a rooted path
///     (e.g., `/..`) are removed.
///   * Empty paths are replaced with `.`.
///
/// The returned path ends in a separator only if it represents the root
/// directory.
pub fn clean(path: &[u8]) -> (r: Vec<u8>)
    ensures
        r@ == spec_clean(path@),
{
    let rooted = path.len() > 0 && path[0] == SEP;
    let comps = components(path);
    let reduced = reduce(rooted, &comps);
    assemble(rooted, &reduced)
}

} // verus!
