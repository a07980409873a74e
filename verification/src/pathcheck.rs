//! Containment of a request-supplied module path under the base
//! directory.
//!
//! Two independent checks: a lexical one on the requested path itself,
//! which refuses absolute paths and `..` chains before any file is
//! touched, and a prefix check on the canonical form that the filesystem
//! resolves (symbolic links included).

use vstd::prelude::*;

use crate::errors::ExecError;

verus! {

/// Index of the first `/` in `s`, or `-1` if there is none.
pub open spec fn spec_first_slash(s: Seq<char>) -> int
    decreases s.len(),
{
    if s.len() == 0 {
        -1
    } else if s[0] == '/' {
        0
    } else {
        let r = spec_first_slash(s.drop_first());
        if r < 0 {
            -1
        } else {
            r + 1
        }
    }
}

proof fn lemma_first_slash(s: Seq<char>)
    ensures
        spec_first_slash(s) == -1 || (0 <= spec_first_slash(s) < s.len()),
        spec_first_slash(s) == -1 ==> forall|j: int| 0 <= j < s.len() ==> s[j] != '/',
        spec_first_slash(s) >= 0 ==> s[spec_first_slash(s)] == '/',
        spec_first_slash(s) >= 0 ==> forall|j: int| 0 <= j < spec_first_slash(s) ==> s[j] != '/',
    decreases s.len(),
{
    if s.len() > 0 && s[0] != '/' {
        lemma_first_slash(s.drop_first());
        let r = spec_first_slash(s.drop_first());
        if r >= 0 {
            assert forall|j: int| 0 <= j < r + 1 implies s[j] != '/' by {
                if j > 0 {
                    assert(s.drop_first()[j - 1] != '/');
                }
            }
        } else {
            assert forall|j: int| 0 <= j < s.len() implies s[j] != '/' by {
                if j > 0 {
                    assert(s.drop_first()[j - 1] != '/');
                }
            }
        }
    }
}

proof fn lemma_first_slash_at(s: Seq<char>, j: int)
    requires
        0 <= j < s.len(),
        s[j] == '/',
        forall|k: int| 0 <= k < j ==> s[k] != '/',
    ensures
        spec_first_slash(s) == j,
    decreases s.len(),
{
    if j > 0 {
        assert(s[0] != '/');
        assert(s.drop_first()[j - 1] == '/');
        assert forall|k: int| 0 <= k < j - 1 implies s.drop_first()[k] != '/' by {
            assert(s[k + 1] != '/');
        }
        lemma_first_slash_at(s.drop_first(), j - 1);
    }
}

proof fn lemma_first_slash_none(s: Seq<char>)
    requires
        forall|k: int| 0 <= k < s.len() ==> s[k] != '/',
    ensures
        spec_first_slash(s) == -1,
    decreases s.len(),
{
    if s.len() > 0 {
        assert forall|k: int| 0 <= k < s.len() - 1 implies s.drop_first()[k] != '/' by {
            assert(s[k + 1] != '/');
        }
        lemma_first_slash_none(s.drop_first());
    }
}

/// The `/`-separated segments of a path string.
pub open spec fn spec_split(s: Seq<char>) -> Seq<Seq<char>>
    decreases s.len(),
    via spec_split_decreases
{
    let i = spec_first_slash(s);
    if i < 0 {
        seq![s]
    } else {
        seq![s.take(i)] + spec_split(s.skip(i + 1))
    }
}

#[via_fn]
proof fn spec_split_decreases(s: Seq<char>) {
    lemma_first_slash(s);
}

/// A segment that leaves the depth alone: empty, or a lone dot.
pub open spec fn spec_seg_is_skip(seg: Seq<char>) -> bool {
    seg.len() == 0 || seg == seq!['.']
}

/// A segment that steps up one directory.
pub open spec fn spec_seg_is_dotdot(seg: Seq<char>) -> bool {
    seg == seq!['.', '.']
}

/// Whether the segment list, walked left to right from `depth`
/// directories below the base, ever steps above the base.
pub open spec fn spec_segs_escape(segs: Seq<Seq<char>>, depth: int) -> bool
    decreases segs.len(),
{
    if segs.len() == 0 {
        false
    } else if spec_seg_is_skip(segs[0]) {
        spec_segs_escape(segs.drop_first(), depth)
    } else if spec_seg_is_dotdot(segs[0]) {
        depth <= 0 || spec_segs_escape(segs.drop_first(), depth - 1)
    } else {
        spec_segs_escape(segs.drop_first(), depth + 1)
    }
}

/// Whether a requested module path escapes the base directory by its
/// own text: it is absolute, or some prefix of its segments has more
/// `..` steps than named directories before them.
pub open spec fn spec_path_escapes(s: Seq<char>) -> bool {
    (s.len() > 0 && s[0] == '/') || spec_segs_escape(spec_split(s), 0)
}

/// The characters of a string, one vector element per `char`.
fn chars_of(s: &str) -> (r: Vec<char>)
    ensures
        r@ == s@,
{
    let n = s.unicode_len();
    let mut r: Vec<char> = Vec::new();
    let mut i: usize = 0;
    while i < n
        invariant
            n == s@.len(),
            0 <= i <= n,
            r@ == s@.take(i as int),
        decreases n - i,
    {
        let c = s.get_char(i);
        r.push(c);
        proof {
            assert(r@ =~= s@.take(i as int + 1));
        }
        i += 1;
    }
    proof {
        assert(r@ =~= s@);
    }
    r
}

/// Find the first `/` at or after `start`.
fn first_slash_from(cs: &Vec<char>, start: usize) -> (r: Option<usize>)
    requires
        start <= cs@.len(),
    ensures
        match r {
            Some(j) => start <= j < cs@.len() && spec_first_slash(cs@.skip(start as int)) == j
                - start,
            None => spec_first_slash(cs@.skip(start as int)) == -1,
        },
{
    let mut i: usize = start;
    while i < cs.len()
        invariant
            start <= i <= cs@.len(),
            forall|k: int| start <= k < i ==> cs@[k] != '/',
        decreases cs@.len() - i,
    {
        if cs[i] == '/' {
            proof {
                let sub = cs@.skip(start as int);
                assert(sub[i - start] == cs@[i as int]);
                assert forall|k: int| 0 <= k < i - start implies sub[k] != '/' by {
                    assert(cs@[k + start] != '/');
                }
                lemma_first_slash_at(sub, i - start);
            }
            return Some(i);
        }
        i += 1;
    }
    proof {
        let sub = cs@.skip(start as int);
        assert forall|k: int| 0 <= k < sub.len() implies sub[k] != '/' by {
            assert(cs@[k + start] != '/');
        }
        lemma_first_slash_none(sub);
    }
    None
}

/// Kind of the segment `cs[start .. end]`: 0 skip, 1 dot-dot, 2 name.
fn seg_kind(cs: &Vec<char>, start: usize, end: usize) -> (r: u8)
    requires
        start <= end <= cs@.len(),
    ensures
        r == 0 <==> spec_seg_is_skip(cs@.subrange(start as int, end as int)),
        r == 1 <==> spec_seg_is_dotdot(cs@.subrange(start as int, end as int)),
        r == 0 || r == 1 || r == 2,
{
    let ghost seg = cs@.subrange(start as int, end as int);
    let len = end - start;
    let is_empty = len == 0;
    let is_dot = len == 1 && cs[start] == '.';
    let is_dotdot = len == 2 && cs[start] == '.' && cs[start + 1] == '.';
    proof {
        assert(seg.len() == len as int);
        assert forall|k: int| 0 <= k < seg.len() implies seg[k] == cs@[start + k] by {}
        assert(is_dot ==> seg =~= seq!['.']);
        assert(is_dotdot ==> seg =~= seq!['.', '.']);
        assert(seq!['.'].len() == 1 && seq!['.'][0] == '.');
        assert(seq!['.', '.'].len() == 2 && seq!['.', '.'][0] == '.' && seq!['.', '.'][1] == '.');
    }
    if is_empty || is_dot {
        0
    } else if is_dotdot {
        1
    } else {
        2
    }
}

/// Walk the segments of `cs[start ..]`, `depth` directories below the
/// base, and report whether they ever step above the base.
fn segs_escape_from(cs: &Vec<char>, start: usize, depth: usize) -> (r: bool)
    requires
        start <= cs@.len(),
    ensures
        r == spec_segs_escape(spec_split(cs@.skip(start as int)), depth as int),
    decreases cs@.len() - start,
{
    let n = cs.len();
    let ghost sub = cs@.skip(start as int);
    match first_slash_from(cs, start) {
        None => {
            proof {
                assert(spec_split(sub) == seq![sub]);
                assert(seq![sub].drop_first() =~= Seq::<Seq<char>>::empty());
                assert(sub =~= cs@.subrange(start as int, cs@.len() as int));
                assert(!spec_segs_escape(Seq::<Seq<char>>::empty(), depth as int));
                assert(!spec_segs_escape(Seq::<Seq<char>>::empty(), depth as int - 1));
                assert(!spec_segs_escape(Seq::<Seq<char>>::empty(), depth as int + 1));
                assert(spec_segs_escape(seq![sub], depth as int) == (spec_seg_is_dotdot(sub)
                    && depth == 0)) by {
                    assert(seq![sub][0] == sub);
                }
            }
            let k = seg_kind(cs, start, n);
            k == 1 && depth == 0
        },
        Some(j) => {
            proof {
                lemma_first_slash(sub);
                let i = spec_first_slash(sub);
                assert(i == j - start);
                assert(spec_split(sub) == seq![sub.take(i)] + spec_split(sub.skip(i + 1)));
                assert((seq![sub.take(i)] + spec_split(sub.skip(i + 1)))[0] == sub.take(i));
                assert(spec_split(sub).len() > 0);
                assert((seq![sub.take(i)] + spec_split(sub.skip(i + 1))).drop_first()
                    =~= spec_split(sub.skip(i + 1)));
                assert(sub.take(i) =~= cs@.subrange(start as int, j as int));
                assert(sub.skip(i + 1) =~= cs@.skip(j as int + 1));
            }
            let k = seg_kind(cs, start, j);
            if k == 0 {
                segs_escape_from(cs, j + 1, depth)
            } else if k == 1 {
                if depth == 0 {
                    true
                } else {
                    segs_escape_from(cs, j + 1, depth - 1)
                }
            } else {
                if depth < usize::MAX {
                    segs_escape_from(cs, j + 1, depth + 1)
                } else {
                    // More nested names than a machine-sized path can hold;
                    // unreachable for real inputs, and never an escape.
                    proof {
                        lemma_split_len(cs@.skip(j as int + 1));
                        lemma_deep_segs_never_escape(
                            spec_split(cs@.skip(j as int + 1)),
                            depth as int + 1,
                        );
                    }
                    false
                }
            }
        },
    }
}

/// A path of `n` characters has at most `n + 1` segments.
proof fn lemma_split_len(s: Seq<char>)
    ensures
        spec_split(s).len() <= s.len() + 1,
    decreases s.len(),
{
    lemma_first_slash(s);
    let i = spec_first_slash(s);
    if i >= 0 {
        lemma_split_len(s.skip(i + 1));
    }
}

/// Walking from a depth at least the number of remaining segments can
/// never step above the base.
proof fn lemma_deep_segs_never_escape(segs: Seq<Seq<char>>, depth: int)
    requires
        depth >= segs.len(),
    ensures
        !spec_segs_escape(segs, depth),
    decreases segs.len(),
{
    if segs.len() > 0 {
        lemma_deep_segs_never_escape(segs.drop_first(), depth);
        lemma_deep_segs_never_escape(segs.drop_first(), depth - 1);
        lemma_deep_segs_never_escape(segs.drop_first(), depth + 1);
    }
}

/// Whether a requested module path escapes the base directory by its
/// own text, before any file is touched.
pub fn path_escapes(path: &str) -> (r: bool)
    ensures
        r == spec_path_escapes(path@),
{
    let cs = chars_of(path);
    if cs.len() > 0 && cs[0] == '/' {
        return true;
    }
    proof {
        assert(cs@.skip(0) =~= path@);
    }
    segs_escape_from(&cs, 0, 0)
}

/// Lexical validation of a requested module path: accepted if and only
/// if its own text stays under the base directory.  No file is read to
/// decide this.
pub fn validate_module_path(path: &str) -> (r: Result<(), ExecError>)
    ensures
        r is Ok <==> !spec_path_escapes(path@),
        r matches Err(e) ==> e matches ExecError::InvalidPath { path: p } && p@ == path@,
{
    if path_escapes(path) {
        Err(ExecError::InvalidPath { path: path.to_owned() })
    } else {
        Ok(())
    }
}

/// Whether a canonical candidate path lies under a canonical base
/// directory: the base is a prefix, and the prefix ends at a component
/// boundary — the paths are equal, the base's own last character is the
/// separator (a root such as `/`), or the candidate continues with one.
pub open spec fn spec_within_base(base: Seq<char>, cand: Seq<char>) -> bool {
    &&& base.len() <= cand.len()
    &&& cand.take(base.len() as int) == base
    &&& {
        ||| cand.len() == base.len()
        ||| (base.len() > 0 && base[base.len() - 1] == '/')
        ||| cand[base.len() as int] == '/'
    }
}

/// Prefix check on canonical paths, used after the filesystem has
/// resolved symbolic links and dot segments.
pub fn path_within_base(base: &str, cand: &str) -> (r: bool)
    ensures
        r == spec_within_base(base@, cand@),
{
    let bs = chars_of(base);
    let cs = chars_of(cand);
    if bs.len() > cs.len() {
        return false;
    }
    let mut i: usize = 0;
    while i < bs.len()
        invariant
            bs@ == base@,
            cs@ == cand@,
            bs@.len() <= cs@.len(),
            0 <= i <= bs@.len(),
            forall|j: int| 0 <= j < i ==> bs@[j] == cs@[j],
        decreases bs@.len() - i,
    {
        if bs[i] != cs[i] {
            proof {
                assert(cand@.take(base@.len() as int)[i as int] != base@[i as int]);
            }
            return false;
        }
        i += 1;
    }
    proof {
        assert(cand@.take(base@.len() as int) =~= base@);
    }
    if cs.len() == bs.len() {
        true
    } else if bs.len() > 0 && bs[bs.len() - 1] == '/' {
        true
    } else {
        cs[bs.len()] == '/'
    }
}

/// Containment check on the canonical form of a module path: accepted
/// if and only if it lies under the canonical base directory; the error
/// names the path as the request gave it.
pub fn check_canonical_within(base: &str, cand: &str, requested: &str) -> (r: Result<
    (),
    ExecError,
>)
    ensures
        r is Ok <==> spec_within_base(base@, cand@),
        r matches Err(e) ==> e matches ExecError::InvalidPath { path: p } && p@ == requested@,
{
    if path_within_base(base, cand) {
        Ok(())
    } else {
        Err(ExecError::InvalidPath { path: requested.to_owned() })
    }
}

} // verus!
