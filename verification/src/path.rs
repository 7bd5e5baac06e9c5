//! Component-wise path prefixes, with the component rules of a Unix path.
use vstd::prelude::*;
use crate::text::{chars_of, chars_eq, char_views};

verus! {

/// A segment between separators that names a component: neither empty
/// (repeated or trailing separators) nor the current directory `.`.
pub open spec fn keeps_segment(seg: Seq<char>) -> bool {
    seg.len() != 0 && seg != seq!['.']
}

/// Scans the first `i` characters of `s`: the kept segments already closed by
/// a separator, and the segment still open.
pub open spec fn scan_segments(s: Seq<char>, i: nat) -> (Seq<Seq<char>>, Seq<char>)
    decreases i,
{
    if i == 0 || i > s.len() {
        (seq![], seq![])
    } else {
        let prev = scan_segments(s, (i - 1) as nat);
        if s[i - 1] == '/' {
            (if keeps_segment(prev.1) { prev.0.push(prev.1) } else { prev.0 }, seq![])
        } else {
            (prev.0, prev.1.push(s[i - 1]))
        }
    }
}

/// The named segments of `s`: the pieces between `/`, without empty ones and `.`.
pub open spec fn named_segments(s: Seq<char>) -> Seq<Seq<char>> {
    let sc = scan_segments(s, s.len());
    if keeps_segment(sc.1) { sc.0.push(sc.1) } else { sc.0 }
}

/// `s` starts at the root directory.
pub open spec fn has_root(s: Seq<char>) -> bool {
    s.len() > 0 && s[0] == '/'
}

/// A relative path that begins with the current directory `.` keeps it as
/// its first component.
pub open spec fn leading_cur_dir(s: Seq<char>) -> bool {
    !has_root(s) && s.len() > 0 && s[0] == '.' && (s.len() == 1 || s[1] == '/')
}

/// The components of a Unix path: the root (written `/`) when the path is
/// absolute, a leading `.` when the path starts with one, then every named
/// segment. Repeated separators, inner `.` and a trailing separator leave no
/// component.
pub open spec fn path_components(s: Seq<char>) -> Seq<Seq<char>> {
    (if has_root(s) { seq![seq!['/']] } else { seq![] })
        + (if leading_cur_dir(s) { seq![seq!['.']] } else { seq![] })
        + named_segments(s)
}

/// `target` lies at or beneath `base`: the components of `base` are the first
/// components of `target`. Only whole components match.
pub open spec fn path_starts_with(target: Seq<char>, base: Seq<char>) -> bool {
    path_components(base).is_prefix_of(path_components(target))
}

/// Scanning a longer sequence agrees with scanning its prefix, as far as the
/// prefix goes.
proof fn lemma_scan_prefix(a: Seq<char>, b: Seq<char>, i: nat)
    requires
        i <= a.len(),
    ensures
        scan_segments(a + b, i) == scan_segments(a, i),
    decreases i,
{
    if i > 0 {
        lemma_scan_prefix(a, b, (i - 1) as nat);
        assert((a + b)[i - 1] == a[i - 1]);
    }
}

/// Once the scan of `a` has just passed a separator, scanning on through `b`
/// appends the segments of `b`, scanned on their own.
proof fn lemma_scan_concat(a: Seq<char>, b: Seq<char>, k: nat)
    requires
        k <= b.len(),
        scan_segments(a, a.len()).1 == Seq::<char>::empty(),
    ensures
        scan_segments(a + b, a.len() + k) == (
            scan_segments(a, a.len()).0 + scan_segments(b, k).0,
            scan_segments(b, k).1,
        ),
    decreases k,
{
    if k == 0 {
        lemma_scan_prefix(a, b, a.len());
        assert(scan_segments(a, a.len()).0 + seq![] =~= scan_segments(a, a.len()).0);
    } else {
        lemma_scan_concat(a, b, (k - 1) as nat);
        assert((a + b)[a.len() + k - 1] == b[k - 1]);
        let prev = scan_segments(b, (k - 1) as nat);
        if b[k - 1] == '/' && keeps_segment(prev.1) {
            assert(scan_segments(a, a.len()).0 + prev.0.push(prev.1)
                =~= (scan_segments(a, a.len()).0 + prev.0).push(prev.1));
        }
    }
}

/// Law: a path made by joining a child onto `base` with a separator lies
/// beneath `base`.
pub proof fn law_joined_child_lies_beneath(base: Seq<char>, child: Seq<char>)
    ensures
        path_starts_with(base + seq!['/'] + child, base),
{
    let joined = base + seq!['/'] + child;
    if base.len() == 0 {
        assert(path_components(base) =~= seq![]);
    } else {
        let a = base + seq!['/'];
        assert(joined =~= a + child);
        lemma_scan_prefix(base, seq!['/'], base.len());
        assert(a[base.len() as int] == '/');
        assert(scan_segments(a, a.len()).1 =~= Seq::<char>::empty());
        assert(scan_segments(a, a.len()).0 =~= named_segments(base));
        lemma_scan_concat(a, child, child.len());
        assert(a.len() + child.len() == joined.len());
        assert(named_segments(joined) =~= named_segments(base) + named_segments(child));
        assert(has_root(joined) == has_root(base));
        assert(leading_cur_dir(joined) == leading_cur_dir(base));
        let head = (if has_root(base) { seq![seq!['/']] } else { seq![] })
            + (if leading_cur_dir(base) { seq![seq!['.']] } else { seq![] });
        assert(path_components(joined) =~= (head + named_segments(base)) + named_segments(child));
        assert(path_components(base) =~= head + named_segments(base));
    }
}

/// Law: every path lies at or beneath itself.
pub proof fn law_starts_with_reflexive(p: Seq<char>)
    ensures
        path_starts_with(p, p),
{
    assert(path_components(p).subrange(0, path_components(p).len() as int) =~= path_components(p));
}

/// Law: lying beneath is transitive.
pub proof fn law_starts_with_transitive(a: Seq<char>, b: Seq<char>, c: Seq<char>)
    requires
        path_starts_with(a, b),
        path_starts_with(b, c),
    ensures
        path_starts_with(a, c),
{
    let ca = path_components(a);
    let cb = path_components(b);
    let cc = path_components(c);
    assert forall|i: int| 0 <= i < cc.len() implies #[trigger] cc[i] == ca[i] by {
        assert(cc[i] == cb[i]);
        assert(cb[i] == ca[i]);
    }
}

/// The components of a path, one character vector each.
pub fn components(s: &[char]) -> (parts: Vec<Vec<char>>)
    ensures
        char_views(parts@) == path_components(s@),
{
    let n = s.len();
    let mut parts: Vec<Vec<char>> = Vec::new();
    let abs = n > 0 && s[0] == '/';
    if abs {
        let root: Vec<char> = vec!['/'];
        assert(root@ =~= seq!['/']);
        parts.push(root);
        assert(char_views(parts@) =~= seq![seq!['/']]);
    }
    if !abs && n > 0 && s[0] == '.' && (n == 1 || s[1] == '/') {
        let ghost before = char_views(parts@);
        let dot: Vec<char> = vec!['.'];
        assert(dot@ =~= seq!['.']);
        parts.push(dot);
        assert(char_views(parts@) =~= before + seq![seq!['.']]);
    }
    assert(abs == has_root(s@));
    let ghost head = char_views(parts@);
    assert(head =~= (if has_root(s@) { seq![seq!['/']] } else { seq![] })
        + (if leading_cur_dir(s@) { seq![seq!['.']] } else { seq![] }));
    let mut cur: Vec<char> = Vec::new();
    let mut i: usize = 0;
    while i < n
        invariant
            n == s@.len(),
            i <= n,
            char_views(parts@) == head + scan_segments(s@, i as nat).0,
            cur@ == scan_segments(s@, i as nat).1,
        decreases n - i,
    {
        let c = s[i];
        if c == '/' {
            let keep = cur.len() != 0 && !(cur.len() == 1 && cur[0] == '.');
            assert(keep == keeps_segment(cur@)) by {
                if cur@.len() == 1 && cur@[0] == '.' {
                    assert(cur@ =~= seq!['.']);
                }
            }
            if keep {
                let ghost before = char_views(parts@);
                parts.push(cur);
                assert(char_views(parts@) =~= before.push(scan_segments(s@, i as nat).1));
            }
            cur = Vec::new();
        } else {
            cur.push(c);
        }
        i = i + 1;
        assert(char_views(parts@) =~= head + scan_segments(s@, i as nat).0);
    }
    let keep = cur.len() != 0 && !(cur.len() == 1 && cur[0] == '.');
    assert(keep == keeps_segment(cur@)) by {
        if cur@.len() == 1 && cur@[0] == '.' {
            assert(cur@ =~= seq!['.']);
        }
    }
    if keep {
        let ghost before = char_views(parts@);
        parts.push(cur);
        assert(char_views(parts@) =~= before.push(scan_segments(s@, n as nat).1));
    }
    assert(char_views(parts@) =~= path_components(s@));
    parts
}

/// Whether `target` lies at or beneath `base`, comparing whole components.
pub fn starts_with(target: &str, base: &str) -> (r: bool)
    ensures
        r == path_starts_with(target@, base@),
{
    let t = chars_of(target);
    let b = chars_of(base);
    let tc = components(t.as_slice());
    let bc = components(b.as_slice());
    if bc.len() > tc.len() {
        return false;
    }
    let mut i: usize = 0;
    while i < bc.len()
        invariant
            char_views(tc@) == path_components(target@),
            char_views(bc@) == path_components(base@),
            bc@.len() <= tc@.len(),
            i <= bc@.len(),
            forall|j: int| 0 <= j < i ==> char_views(tc@)[j] == char_views(bc@)[j],
        decreases bc@.len() - i,
    {
        if !chars_eq(tc[i].as_slice(), bc[i].as_slice()) {
            assert(char_views(tc@)[i as int] != char_views(bc@)[i as int]);
            assert(!path_starts_with(target@, base@));
            return false;
        }
        i = i + 1;
    }
    assert(path_starts_with(target@, base@)) by {
        assert(char_views(bc@) =~= char_views(tc@).subrange(0, bc@.len() as int));
    }
    true
}

} // verus!
