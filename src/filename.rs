use vstd::prelude::*;

verus! {

/// A path component that names something: neither empty nor `.`.
pub open spec fn names_entry(c: Seq<char>) -> bool {
    c.len() > 0 && c != seq!['.']
}

/// Scanning `s` left to right: the component being read, and the last
/// complete component that names an entry (empty when there is none).
pub open spec fn scan_components(s: Seq<char>) -> (Seq<char>, Seq<char>)
    decreases s.len(),
{
    if s.len() == 0 {
        (Seq::empty(), Seq::empty())
    } else {
        let (cur, best) = scan_components(s.drop_last());
        if s.last() == '/' {
            (Seq::empty(), if names_entry(cur) { cur } else { best })
        } else {
            (cur.push(s.last()), best)
        }
    }
}

/// The last `/`-separated component of `s` that is neither empty nor `.`;
/// empty when there is none.
pub open spec fn last_component(s: Seq<char>) -> Seq<char> {
    let (cur, best) = scan_components(s);
    if names_entry(cur) {
        cur
    } else {
        best
    }
}

/// The final name of a path: its last component, unless that is `..` or missing.
pub open spec fn file_name_of(s: Seq<char>) -> Option<Seq<char>> {
    let c = last_component(s);
    if c.len() == 0 || c == seq!['.', '.'] {
        None
    } else {
        Some(c)
    }
}

/// The name under which an uploaded file is stored: the path's final name,
/// or `file` when it has none.
pub open spec fn sanitized_name(s: Seq<char>) -> Seq<char> {
    match file_name_of(s) {
        Some(c) => c,
        None => "file"@,
    }
}

/// Locates the final name of a path as a range of character positions.
pub fn file_name_range(s: &str) -> (r: Option<(usize, usize)>)
    ensures
        r is None <==> file_name_of(s@) is None,
        r matches Some((a, b)) ==> a <= b <= s@.len() && file_name_of(s@) == Some(
            s@.subrange(a as int, b as int),
        ),
{
    let n = s.unicode_len();
    let mut cur_start: usize = 0;
    let mut best_start: usize = 0;
    let mut best_end: usize = 0;
    let mut i: usize = 0;
    while i < n
        invariant
            n == s@.len(),
            i <= n,
            cur_start <= i,
            best_start <= best_end <= i,
            scan_components(s@.take(i as int)).0 == s@.subrange(cur_start as int, i as int),
            scan_components(s@.take(i as int)).1 == s@.subrange(
                best_start as int,
                best_end as int,
            ),
        decreases n - i,
    {
        let c = s.get_char(i);
        proof {
            let t = s@.take(i as int + 1);
            assert(t.drop_last() =~= s@.take(i as int));
            assert(t.last() == c);
        }
        if c == '/' {
            let len = i - cur_start;
            let named = len > 0 && !(len == 1 && s.get_char(cur_start) == '.');
            proof {
                let cur = s@.subrange(cur_start as int, i as int);
                if len == 1 {
                    assert(cur[0] == s@[cur_start as int]);
                    if s@[cur_start as int] == '.' {
                        assert(cur =~= seq!['.']);
                    } else {
                        assert(cur[0] != seq!['.'][0]);
                    }
                }
                assert(named == names_entry(cur));
            }
            if named {
                best_start = cur_start;
                best_end = i;
            }
            cur_start = i + 1;
            assert(s@.subrange(cur_start as int, i as int + 1) =~= Seq::<char>::empty());
        } else {
            assert(s@.subrange(cur_start as int, i as int + 1) =~= s@.subrange(
                cur_start as int,
                i as int,
            ).push(c));
        }
        i += 1;
    }
    assert(s@.take(n as int) =~= s@);
    let len = n - cur_start;
    let named = len > 0 && !(len == 1 && s.get_char(cur_start) == '.');
    proof {
        let cur = s@.subrange(cur_start as int, n as int);
        if len == 1 {
            assert(cur[0] == s@[cur_start as int]);
            if s@[cur_start as int] == '.' {
                assert(cur =~= seq!['.']);
            } else {
                assert(cur[0] != seq!['.'][0]);
            }
        }
        assert(named == names_entry(cur));
    }
    let (a, b) = if named {
        (cur_start, n)
    } else {
        (best_start, best_end)
    };
    let is_parent = b - a == 2 && s.get_char(a) == '.' && s.get_char(a + 1) == '.';
    proof {
        let c = s@.subrange(a as int, b as int);
        assert(last_component(s@) == c);
        if b - a == 2 {
            assert(c[0] == s@[a as int] && c[1] == s@[a + 1]);
            if s@[a as int] == '.' && s@[a + 1] == '.' {
                assert(c =~= seq!['.', '.']);
            } else {
                assert(c[0] != seq!['.', '.'][0] || c[1] != seq!['.', '.'][1]);
            }
        }
        assert(is_parent == (c == seq!['.', '.']));
    }
    if a == b || is_parent {
        None
    } else {
        Some((a, b))
    }
}

/// Reduces an uploaded file name to its final component, so that no name can
/// reach outside the payload directory; a name without one becomes `file`.
pub fn sanitize_filename(filename: &str) -> (r: String)
    ensures
        r@ == sanitized_name(filename@),
{
    match file_name_range(filename) {
        Some((a, b)) => String::from_str(filename.substring_char(a, b)),
        None => String::from_str("file"),
    }
}

} // verus!

verus! {

/// A name that stays inside the directory it is joined to: not empty, not
/// `.` or `..`, and without `/`.
pub open spec fn is_plain_name(n: Seq<char>) -> bool {
    &&& n.len() > 0
    &&& n != seq!['.']
    &&& n != seq!['.', '.']
    &&& forall|i: int| 0 <= i < n.len() ==> n[i] != '/'
}

proof fn lemma_scan_components_plain(s: Seq<char>)
    ensures
        forall|i: int| 0 <= i < scan_components(s).0.len() ==> scan_components(s).0[i] != '/',
        forall|i: int| 0 <= i < scan_components(s).1.len() ==> scan_components(s).1[i] != '/',
        scan_components(s).1.len() == 0 || names_entry(scan_components(s).1),
    decreases s.len(),
{
    if s.len() > 0 {
        lemma_scan_components_plain(s.drop_last());
        let (cur, best) = scan_components(s.drop_last());
        if s.last() != '/' {
            let c2 = cur.push(s.last());
            assert forall|i: int| 0 <= i < c2.len() implies c2[i] != '/' by {
                if i < cur.len() {
                    assert(c2[i] == cur[i]);
                }
            }
        }
    }
}

/// A sanitized file name always names an entry directly inside the
/// directory it is written to: whatever the uploaded name, no file can be
/// placed outside the payload directory.
pub proof fn lemma_sanitized_name_is_plain(s: Seq<char>)
    ensures
        is_plain_name(sanitized_name(s)),
{
    lemma_scan_components_plain(s);
    reveal_strlit("file");
    let c = last_component(s);
    if file_name_of(s) is None {
        assert(sanitized_name(s) == "file"@);
        assert("file"@[0] != seq!['.'][0]);
        assert("file"@.len() != seq!['.', '.'].len());
    }
}

} // verus!
