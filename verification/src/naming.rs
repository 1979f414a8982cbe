//! Resolving the executable's base name: the part of a path after its
//! last separator.

use vstd::prelude::*;

verus! {

/// Where the base name of a path starts: the position right after the
/// last `/`, or the start of the path when it holds none.
pub open spec fn base_start(s: Seq<char>) -> int
    decreases s.len(),
{
    if s.len() == 0 {
        0
    } else if s.last() == '/' {
        s.len() as int
    } else {
        base_start(s.drop_last())
    }
}

/// The base name of a path: its longest suffix free of `/`.  Empty when
/// the path is empty or ends in a separator.
pub open spec fn base_of(s: Seq<char>) -> Seq<char> {
    s.subrange(base_start(s), s.len() as int)
}

/// The start of the base name lies within the path.
pub proof fn lemma_base_start_bounds(s: Seq<char>)
    ensures
        0 <= base_start(s) <= s.len(),
    decreases s.len(),
{
    if s.len() > 0 && s.last() != '/' {
        lemma_base_start_bounds(s.drop_last());
    }
}

/// Extracts the base name of a path, as the executable-name resolver
/// needs it; nothing when the path has no final component.
pub fn base_name(path: &str) -> (r: Option<String>)
    ensures
        match r {
            Some(name) => base_of(path@).len() > 0 && name@ == base_of(path@),
            None => base_of(path@).len() == 0,
        },
{
    let n = path.unicode_len();
    let mut start: usize = 0;
    let mut i: usize = 0;
    while i < n
        invariant
            n == path@.len(),
            i <= n,
            start <= i,
            start as int == base_start(path@.take(i as int)),
        decreases n - i,
    {
        let c = path.get_char(i);
        proof {
            assert(path@.take(i as int + 1).drop_last() =~= path@.take(i as int));
            assert(path@.take(i as int + 1).last() == path@[i as int]);
        }
        if c == '/' {
            start = i + 1;
        }
        i += 1;
    }
    proof {
        assert(path@.take(n as int) =~= path@);
    }
    if start < n {
        let s = path.substring_char(start, n);
        let name = s.to_owned();
        proof {
            assert(name@ == base_of(path@));
        }
        Some(name)
    } else {
        None
    }
}

} // verus!
