//! The last component of a '/'-separated path, read the way the host
//! platform's path type reads it: repeated and trailing separators and
//! "." components are ignored, and a path that ends in ".." names no file.
use vstd::prelude::*;
use vstd::string::StrSliceExecFns;

verus! {

/// Scans `rest` from its end. `seg` holds the characters already passed
/// since the last separator (none of them a separator).
pub open spec fn name_from(rest: Seq<char>, seg: Seq<char>) -> Option<Seq<char>>
    decreases rest.len(),
{
    if rest.len() == 0 || rest.last() == '/' {
        if seg.len() == 0 || seg == seq!['.'] {
            if rest.len() == 0 {
                None
            } else {
                name_from(rest.drop_last(), seq![])
            }
        } else if seg == seq!['.', '.'] {
            None
        } else {
            Some(seg)
        }
    } else {
        name_from(rest.drop_last(), seq![rest.last()] + seg)
    }
}

/// The file name that a path ends in, if it ends in one.
pub open spec fn file_name_of(p: Seq<char>) -> Option<Seq<char>> {
    name_from(p, seq![])
}

pub open spec fn has_file_name(p: Seq<char>) -> bool {
    file_name_of(p) is Some
}

/// The last normal component of `p`, or `None` where `p` is empty, is made
/// of separators and "." only, or ends in "..".
pub fn file_name(p: &str) -> (r: Option<String>)
    ensures
        r matches Some(name) ==> file_name_of(p@) == Some(name@),
        r is None ==> file_name_of(p@) is None,
{
    let n = p.unicode_len();
    let mut i: usize = n;
    let mut j: usize = n;
    assert(p@.subrange(0, n as int) =~= p@);
    assert(p@.subrange(n as int, n as int) =~= seq![]);
    loop
        invariant
            i <= j <= n,
            n == p@.len(),
            name_from(p@.subrange(0, i as int), p@.subrange(i as int, j as int))
                == file_name_of(p@),
            forall|k: int| i <= k < j ==> p@[k] != '/',
        decreases i, j,
    {
        let rest = Ghost(p@.subrange(0, i as int));
        let seg = Ghost(p@.subrange(i as int, j as int));
        if i == 0 || p.get_char(i - 1) == '/' {
            let single_dot = j - i == 1 && p.get_char(i) == '.';
            let double_dot = j - i == 2 && p.get_char(i) == '.' && p.get_char(i + 1) == '.';
            if single_dot {
                assert(seg@ =~= seq!['.']);
            }
            if double_dot {
                assert(seg@ =~= seq!['.', '.']);
            }
            if j == i || single_dot {
                if i == 0 {
                    return None;
                }
                assert(rest@.drop_last() =~= p@.subrange(0, i - 1));
                assert(p@.subrange(i - 1, i - 1) =~= seq![]);
                i = i - 1;
                j = i;
            } else if double_dot {
                return None;
            } else {
                proof {
                    if seg@ == seq!['.'] {
                        assert(seg@[0] == p@[i as int]);
                    }
                    if seg@ == seq!['.', '.'] {
                        assert(seg@[0] == p@[i as int]);
                        assert(seg@[1] == p@[i + 1]);
                    }
                }
                let name = p.substring_char(i, j).to_owned();
                return Some(name);
            }
        } else {
            assert(rest@.drop_last() =~= p@.subrange(0, i - 1));
            assert(seq![rest@.last()] + seg@ =~= p@.subrange(i - 1, j as int));
            i = i - 1;
        }
    }
}

} // verus!
