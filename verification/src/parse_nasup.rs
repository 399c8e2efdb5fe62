//! Row-level parsing of the three source worksheets (sessions, presenter
//! institutions, strands) into plain records.

use vstd::prelude::*;

use crate::text::spec_is_ws;

pub mod parse_model;
pub mod parse_presenter_institutions;
pub mod parse_sessions;
pub mod parse_strands;

verus! {

/// The character positions of every comma not followed by whitespace, in
/// order. Such commas hint at author lists that would split wrongly.
pub fn find_commas_without_following_whitespace(text: &str) -> (r: Vec<usize>)
    ensures
        forall|k: int|
            0 <= k < r@.len() ==> 0 <= #[trigger] r@[k] < text@.len() - 1 && text@[r@[k] as int]
                == ',' && !spec_is_ws(text@[r@[k] + 1]),
        forall|i: int|
            0 <= i < text@.len() - 1 && text@[i] == ',' && !spec_is_ws(#[trigger] text@[i + 1])
                ==> r@.contains(i as usize),
        forall|k1: int, k2: int| 0 <= k1 < k2 < r@.len() ==> r@[k1] < r@[k2],
{
    let n = text.unicode_len();
    let mut r: Vec<usize> = Vec::new();
    let mut i: usize = 0;
    if n == 0 {
        return r;
    }
    while i < n - 1
        invariant
            0 <= i <= n - 1,
            n == text@.len(),
            forall|k: int|
                0 <= k < r@.len() ==> 0 <= #[trigger] r@[k] < i && text@[r@[k] as int] == ','
                    && !spec_is_ws(text@[r@[k] + 1]),
            forall|j: int|
                0 <= j < i && j < n - 1 && text@[j] == ',' && !spec_is_ws(#[trigger] text@[j + 1])
                    ==> r@.contains(j as usize),
            forall|k1: int, k2: int| 0 <= k1 < k2 < r@.len() ==> r@[k1] < r@[k2],
        decreases n - i,
    {
        if text.get_char(i) == ',' && !crate::text::is_ws(text.get_char(i + 1)) {
            let ghost pre = r@;
            r.push(i);
            proof {
                assert(r@.drop_last() =~= pre);
                assert forall|j: int|
                    0 <= j < i + 1 && j < n - 1 && text@[j] == ',' && !spec_is_ws(
                        #[trigger] text@[j + 1],
                    ) implies r@.contains(j as usize) by {
                    if j < i {
                        let k = choose|k: int| 0 <= k < pre.len() && pre[k] == j as usize;
                        assert(r@[k] == j as usize);
                    } else {
                        assert(r@[r@.len() - 1] == j as usize);
                    }
                }
            }
        }
        i += 1;
    }
    r
}

} // verus!
