//! Splitting a configured command string on whitespace into the
//! executable path and its arguments, the form the dispatcher spawns.
use vstd::prelude::*;
use vstd::string::StrSliceExecFns;
use crate::text::{is_space, is_space_char};

verus! {

/// One pass of the splitter from position `i`, carrying the word
/// collected so far and the words already emitted.
pub open spec fn split_acc(s: Seq<char>, i: int, cur: Seq<char>, out: Seq<Seq<char>>) -> Seq<
    Seq<char>,
>
    decreases s.len() - i,
{
    if i < 0 || i >= s.len() {
        if cur.len() > 0 {
            out.push(cur)
        } else {
            out
        }
    } else if is_space_char(s[i]) {
        split_acc(
            s,
            i + 1,
            Seq::empty(),
            if cur.len() > 0 {
                out.push(cur)
            } else {
                out
            },
        )
    } else {
        split_acc(s, i + 1, cur.push(s[i]), out)
    }
}

/// The whitespace-separated words of `s`, in order, each nonempty.
pub open spec fn spec_split_ws(s: Seq<char>) -> Seq<Seq<char>> {
    split_acc(s, 0, Seq::empty(), Seq::empty())
}

/// Split a configured command string into its words: the first is the
/// executable path, the rest its arguments.
pub fn split_command(s: &str) -> (parts: Vec<String>)
    ensures
        parts.deep_view() == spec_split_ws(s@),
{
    let n = s.unicode_len();
    let mut out: Vec<String> = Vec::new();
    let mut start: usize = 0;
    let mut i: usize = 0;
    proof {
        assert(s@.subrange(0, 0) =~= Seq::<char>::empty());
        assert(out.deep_view() =~= Seq::<Seq<char>>::empty());
    }
    while i < n
        invariant
            n == s@.len(),
            start <= i <= n,
            split_acc(s@, i as int, s@.subrange(start as int, i as int), out.deep_view())
                == spec_split_ws(s@),
        decreases n - i,
    {
        let ghost cur = s@.subrange(start as int, i as int);
        let ghost out0 = out.deep_view();
        let c = s.get_char(i);
        if is_space(c) {
            if start < i {
                let word = s.substring_char(start, i).to_owned();
                out.push(word);
                proof {
                    assert(out.deep_view() =~= out0.push(cur));
                }
            }
            start = i + 1;
            proof {
                assert(s@.subrange(start as int, i + 1) =~= Seq::<char>::empty());
            }
        } else {
            proof {
                assert(s@.subrange(start as int, i + 1) =~= cur.push(s@[i as int]));
            }
        }
        i = i + 1;
    }
    if start < n {
        let ghost cur = s@.subrange(start as int, n as int);
        let ghost out0 = out.deep_view();
        let word = s.substring_char(start, n).to_owned();
        out.push(word);
        proof {
            assert(out.deep_view() =~= out0.push(cur));
        }
    }
    out
}

} // verus!
