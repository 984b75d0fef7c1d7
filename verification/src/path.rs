//! Reading a file's extension off its path, to pick the highlighting language.

use vstd::prelude::*;
use vstd::string::*;

verus! {

/// Index just after the last '/' of a path: where the file's name starts.
pub open spec fn file_name_start(p: Seq<char>) -> int
    decreases p.len(),
{
    if p.len() == 0 {
        0
    } else if p.last() == '/' {
        p.len() as int
    } else {
        file_name_start(p.drop_last())
    }
}

/// Index of the last '.' of a file name, or -1 if it has none.
pub open spec fn last_dot(s: Seq<char>) -> int
    decreases s.len(),
{
    if s.len() == 0 {
        -1
    } else if s.last() == '.' {
        s.len() - 1
    } else {
        last_dot(s.drop_last())
    }
}

/// The extension of a file name: what follows its final dot. A name without a
/// dot has none, and the dot that leads a hidden file's name begins no
/// extension.
pub open spec fn name_extension(name: Seq<char>) -> Option<Seq<char>> {
    let d = last_dot(name);
    if d <= 0 {
        None
    } else {
        Some(name.skip(d + 1))
    }
}

/// The extension of the file a path points to.
pub open spec fn path_extension(p: Seq<char>) -> Option<Seq<char>> {
    name_extension(p.skip(file_name_start(p)))
}

/// The extension of the file the given path names, if it has one.
pub fn extension_of_path(path: &str) -> (r: Option<String>)
    ensures
        match r {
            Some(e) => path_extension(path@) == Some(e@),
            None => path_extension(path@) is None,
        },
{
    let n: usize = path.unicode_len();
    let mut start: usize = 0;
    let mut i: usize = 0;
    while i < n
        invariant
            n == path@.len(),
            i <= n,
            start <= i,
            start == file_name_start(path@.take(i as int)),
        decreases n - i,
    {
        let c = path.get_char(i);
        proof {
            assert(path@.take(i + 1).drop_last() =~= path@.take(i as int));
            assert(path@.take(i + 1).last() == c);
        }
        if c == '/' {
            start = i + 1;
        }
        i = i + 1;
    }
    proof {
        assert(path@.take(n as int) =~= path@);
    }
    let name = path.substring_char(start, n);
    proof {
        assert(name@ =~= path@.skip(start as int));
        assert(name@ == path@.skip(file_name_start(path@)));
    }
    let m: usize = name.unicode_len();
    let mut dot: usize = 0;
    let mut has_dot: bool = false;
    let mut j: usize = 0;
    while j < m
        invariant
            m == name@.len(),
            j <= m,
            has_dot ==> dot < j && last_dot(name@.take(j as int)) == dot,
            !has_dot ==> last_dot(name@.take(j as int)) == -1,
        decreases m - j,
    {
        let c = name.get_char(j);
        proof {
            assert(name@.take(j + 1).drop_last() =~= name@.take(j as int));
            assert(name@.take(j + 1).last() == c);
        }
        if c == '.' {
            dot = j;
            has_dot = true;
        }
        j = j + 1;
    }
    proof {
        assert(name@.take(m as int) =~= name@);
    }
    if has_dot && dot > 0 {
        let e = name.substring_char(dot + 1, m);
        proof {
            assert(e@ =~= name@.skip(dot + 1));
        }
        Some(e.to_owned())
    } else {
        None
    }
}

} // verus!
