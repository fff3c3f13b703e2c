//! Reading Unity scene paths: the `.unity` extension, the enclosing project
//! root, and the `/Assets/` heuristic. Both `/` and `\` separate path parts.
use vstd::prelude::*;

verus! {

/// `c` separates the parts of a path.
pub open spec fn is_sep(c: char) -> bool {
    c == '/' || c == '\\'
}

/// The last part of `p` ends in `.unity` after at least one other character.
pub open spec fn has_unity_extension(p: Seq<char>) -> bool {
    &&& p.len() > 6
    &&& p.subrange(p.len() - 6, p.len() as int) == ".unity"@
    &&& !is_sep(p[p.len() - 7])
}

/// A directory part named `Assets`, followed by a separator, starts at `k`.
pub open spec fn assets_at(p: Seq<char>, k: int) -> bool {
    &&& 0 <= k
    &&& k + 7 <= p.len()
    &&& p.subrange(k, k + 6) == "Assets"@
    &&& is_sep(p[k + 6])
    &&& (k == 0 || is_sep(p[k - 1]))
}

/// `k` is where the innermost `Assets` directory of `p` starts.
pub open spec fn innermost_assets(p: Seq<char>, k: int) -> bool {
    &&& assets_at(p, k)
    &&& forall|j: int| k < j ==> !assets_at(p, j)
}

/// The parent of the `Assets` directory starting at `k`: the path before the
/// separator in front of it, or that separator alone when it begins the path.
pub open spec fn parent_of_assets(p: Seq<char>, k: int) -> Seq<char> {
    if k <= 1 {
        p.subrange(0, k)
    } else {
        p.subrange(0, k - 1)
    }
}

/// The project root of a scene path: the parent of its innermost `Assets`
/// directory, if it has one.
pub open spec fn project_root_of(p: Seq<char>) -> Option<Seq<char>> {
    if exists|k: int| assets_at(p, k) {
        Some(parent_of_assets(p, choose|k: int| innermost_assets(p, k)))
    } else {
        None
    }
}

/// `p` with each backslash turned into a forward slash.
pub open spec fn normalized(p: Seq<char>) -> Seq<char> {
    Seq::new(p.len(), |i: int| if p[i] == '\\' { '/' } else { p[i] })
}

/// `t` occurs in `s`.
pub open spec fn contains(s: Seq<char>, t: Seq<char>) -> bool {
    exists|k: int| 0 <= k && k + t.len() <= s.len() && #[trigger] s.subrange(k, k + t.len()) == t
}

/// The accept rule for scene paths: an existing file with the `.unity`
/// extension whose normalized path contains `/Assets/`.
pub open spec fn is_valid_scene(p: Seq<char>, file_exists: bool) -> bool {
    file_exists && has_unity_extension(p) && contains(normalized(p), "/Assets/"@)
}

fn sep(c: char) -> (r: bool)
    ensures
        r == is_sep(c),
{
    c == '/' || c == '\\'
}

/// Whether `w` stands in `p` from position `k`.
fn word_at(p: &str, k: usize, w: &str) -> (r: bool)
    requires
        k + w@.len() <= p@.len(),
    ensures
        r == (p@.subrange(k as int, k + w@.len()) == w@),
{
    let n = w.unicode_len();
    let m = p.unicode_len();
    let mut t: usize = 0;
    while t < n
        invariant
            t <= n,
            n == w@.len(),
            m == p@.len(),
            k + n <= m,
            forall|j: int| 0 <= j < t ==> p@[k + j] == w@[j],
        decreases n - t,
    {
        if p.get_char(k + t) != w.get_char(t) {
            assert(p@.subrange(k as int, k + n)[t as int] != w@[t as int]);
            return false;
        }
        t = t + 1;
    }
    assert(p@.subrange(k as int, k + n) =~= w@);
    true
}

/// Whether the path ends in a file name with the `.unity` extension.
pub fn has_unity_ext(p: &str) -> (r: bool)
    ensures
        r == has_unity_extension(p@),
{
    proof {
        reveal_strlit(".unity");
    }
    let n = p.unicode_len();
    if n <= 6 {
        return false;
    }
    word_at(p, n - 6, ".unity") && !sep(p.get_char(n - 7))
}

/// The unity project root of a scene path: the parent of the innermost
/// ancestor directory named `Assets`.
pub fn project_root(p: &str) -> (r: Option<String>)
    ensures
        r matches Some(s) ==> project_root_of(p@) == Some(s@),
        r is None ==> project_root_of(p@) is None,
{
    proof {
        reveal_strlit("Assets");
    }
    let n = p.unicode_len();
    if n < 7 {
        return None;
    }
    let mut k: usize = n - 7;
    loop
        invariant
            n == p@.len(),
            k + 7 <= n,
            forall|j: int| k < j ==> !assets_at(p@, j),
        decreases k,
    {
        proof {
            reveal_strlit("Assets");
        }
        if word_at(p, k, "Assets") && sep(p.get_char(k + 6)) && (k == 0 || sep(p.get_char(k - 1))) {
            assert(innermost_assets(p@, k as int));
            let end: usize = if k <= 1 { k } else { k - 1 };
            let root = p.substring_char(0, end).to_owned();
            proof {
                let c = choose|c: int| innermost_assets(p@, c);
                assert(c == k);
            }
            return Some(root);
        }
        if k == 0 {
            return None;
        }
        k = k - 1;
    }
}

/// Whether a path names an existing Unity scene inside an `Assets` folder;
/// `file_exists` tells whether the file is there.
pub fn validate_unity_scene(path: &str, file_exists: bool) -> (r: bool)
    ensures
        r == is_valid_scene(path@, file_exists),
{
    if !file_exists || !has_unity_ext(path) {
        return false;
    }
    proof {
        reveal_strlit("Assets");
        reveal_strlit("/Assets/");
    }
    let n = path.unicode_len();
    let ghost q = normalized(path@);
    if n < 8 {
        assert(!contains(q, "/Assets/"@));
        return false;
    }
    let mut k: usize = 0;
    while k <= n - 8
        invariant
            file_exists,
            has_unity_extension(path@),
            8 <= n,
            k <= n,
            n == path@.len(),
            "/Assets/"@.len() == 8,
            "Assets"@.len() == 6,
            q == normalized(path@),
            forall|j: int| 0 <= j < k ==> #[trigger] q.subrange(j, j + "/Assets/"@.len()) != "/Assets/"@,
        decreases n - k,
    {
        proof {
            reveal_strlit("Assets");
            reveal_strlit("/Assets/");
        }
        let hit = sep(path.get_char(k)) && word_at(path, k + 1, "Assets") && sep(path.get_char(k + 7));
        proof {
            let w = q.subrange(k as int, k + "/Assets/"@.len());
            if hit {
                assert(w =~= "/Assets/"@) by {
                    assert(path@.subrange(k + 1, k + 7) == "Assets"@);
                    assert forall|t: int| 1 <= t < 7 implies w[t] == "/Assets/"@[t] by {
                        assert(path@.subrange(k + 1, k + 7)[t - 1] == "Assets"@[t - 1]);
                    }
                }
            } else if w == "/Assets/"@ {
                assert(w[0] == '/');
                assert(w[7] == '/');
                assert(path@.subrange(k + 1, k + 7) =~= "Assets"@) by {
                    assert forall|t: int| 0 <= t < 6 implies path@.subrange(k + 1, k + 7)[t] == "Assets"@[t] by {
                        assert(w[t + 1] == "/Assets/"@[t + 1]);
                    }
                }
            }
        }
        if hit {
            assert(contains(q, "/Assets/"@));
            return true;
        }
        k = k + 1;
    }
    false
}

} // verus!
