use vstd::prelude::*;

verus! {

/// The index of the first `'/'` in `s` at or after `k`, or `s.len()` when
/// there is none.
pub open spec fn slash_from(s: Seq<char>, k: int) -> int
    decreases s.len() - k,
{
    if k >= s.len() {
        s.len() as int
    } else if s[k] == '/' {
        k
    } else {
        slash_from(s, k + 1)
    }
}

/// The link identifier in a request path: the segment after the first
/// `'/'`, up to the next `'/'` or the end. `None` when the path has no `'/'`
/// or that segment is empty.
pub open spec fn link_id_of(path: Seq<char>) -> Option<Seq<char>> {
    let start = slash_from(path, 0);
    if start >= path.len() {
        None
    } else {
        let end = slash_from(path, start + 1);
        if end == start + 1 {
            None
        } else {
            Some(path.subrange(start + 1, end))
        }
    }
}

proof fn slash_from_bounds(s: Seq<char>, k: int)
    requires
        0 <= k,
    ensures
        k <= s.len() ==> k <= slash_from(s, k) <= s.len(),
        k > s.len() ==> slash_from(s, k) == s.len(),
    decreases s.len() - k,
{
    if k < s.len() && s[k] != '/' {
        slash_from_bounds(s, k + 1);
    }
}

/// Finds the first `'/'` in `s` at or after `from`.
fn find_slash(s: &str, from: usize) -> (r: usize)
    requires
        from <= s@.len(),
    ensures
        r as int == slash_from(s@, from as int),
{
    let len = s.unicode_len();
    let mut i = from;
    while i < len
        invariant
            len == s@.len(),
            from <= i <= len,
            slash_from(s@, from as int) == slash_from(s@, i as int),
        decreases len - i,
    {
        if s.get_char(i) == '/' {
            return i;
        }
        i = i + 1;
    }
    i
}

/// Gets the link identifier from a request path (`"/abc/details"` gives
/// `"abc"`), used verbatim as the storage key.
pub fn link_id_from_path(path: &str) -> (r: Option<String>)
    ensures
        r.deep_view() == link_id_of(path@),
{
    let len = path.unicode_len();
    let start = find_slash(path, 0);
    if start >= len {
        return None;
    }
    let end = find_slash(path, start + 1);
    proof {
        slash_from_bounds(path@, start + 1);
    }
    if end == start + 1 {
        return None;
    }
    let id = path.substring_char(start + 1, end);
    Some(id.to_owned())
}

} // verus!
