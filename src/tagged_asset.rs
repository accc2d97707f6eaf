//! Asset names written without their release's tag.
//!
//! An untagged name such as `tool-linux.tar.gz` stands for the name that the
//! asset has in a given release: the tag is inserted after the name's first
//! word, the part before its first `-` or `.` (`tool-v1.0.0-linux.tar.gz` for
//! tag `v1.0.0`).

use vstd::prelude::*;

use crate::github::Tag;

verus! {

pub open spec fn is_separator(c: char) -> bool {
    c == '-' || c == '.'
}

/// Where the first word of `s` ends: its first `-` or `.`, or its end.
pub open spec fn first_separator(s: Seq<char>) -> int
    decreases s.len(),
{
    if s.len() == 0 {
        0
    } else if is_separator(s[0]) {
        0
    } else {
        1 + first_separator(s.drop_first())
    }
}

/// The name of the asset that `untagged` stands for in the release tagged `tag`.
pub open spec fn tagged_name(tag: Seq<char>, untagged: Seq<char>) -> Seq<char> {
    let i = first_separator(untagged);
    untagged.subrange(0, i) + "-"@ + tag + untagged.subrange(i, untagged.len() as int)
}

proof fn lemma_first_separator(s: Seq<char>, i: int)
    requires
        0 <= i <= s.len(),
        forall|j: int| 0 <= j < i ==> !is_separator(#[trigger] s[j]),
        i == s.len() || is_separator(s[i]),
    ensures
        first_separator(s) == i,
    decreases i,
{
    if i > 0 {
        assert(!is_separator(s[0]));
        assert forall|j: int| 0 <= j < i - 1 implies !is_separator(#[trigger] s.drop_first()[j]) by {
            assert(s.drop_first()[j] == s[j + 1]);
        }
        if i < s.len() {
            assert(s.drop_first()[i - 1] == s[i]);
        }
        lemma_first_separator(s.drop_first(), i - 1);
    }
}

/// For a fixed untagged name, releases with different tags give different
/// asset names.
pub proof fn lemma_tagged_name_injective(t1: Seq<char>, t2: Seq<char>, untagged: Seq<char>)
    requires
        tagged_name(t1, untagged) == tagged_name(t2, untagged),
    ensures
        t1 == t2,
{
    reveal_strlit("-");
    let i = first_separator(untagged);
    lemma_first_separator_bounds(untagged);
    let a = tagged_name(t1, untagged);
    let b = tagged_name(t2, untagged);
    assert("-"@.len() == 1);
    assert(a.len() == i + 1 + t1.len() + (untagged.len() - i));
    assert(b.len() == i + 1 + t2.len() + (untagged.len() - i));
    assert(t1.len() == t2.len());
    assert forall|k: int| 0 <= k < t1.len() implies t1[k] == t2[k] by {
        assert(a[i + 1 + k] == t1[k]);
        assert(b[i + 1 + k] == t2[k]);
    }
    assert(t1 =~= t2);
}

proof fn lemma_first_separator_bounds(s: Seq<char>)
    ensures
        0 <= first_separator(s) <= s.len(),
    decreases s.len(),
{
    if s.len() > 0 && !is_separator(s[0]) {
        lemma_first_separator_bounds(s.drop_first());
    }
}

pub struct TaggedAsset;

impl TaggedAsset {
    /// The name that `untagged` stands for in the release tagged `tag`.
    pub fn tag(tag: &Tag, untagged: &str) -> (r: String)
        ensures
            r@ == tagged_name(tag.0@, untagged@),
    {
        let n = untagged.unicode_len();
        let mut i: usize = 0;
        while i < n
            invariant
                i <= n,
                n == untagged@.len(),
                forall|j: int| 0 <= j < i ==> !is_separator(#[trigger] untagged@[j]),
            ensures
                i <= n,
                forall|j: int| 0 <= j < i ==> !is_separator(#[trigger] untagged@[j]),
                i == n || is_separator(untagged@[i as int]),
            decreases n - i,
        {
            let c = untagged.get_char(i);
            if c == '-' || c == '.' {
                break;
            }
            i = i + 1;
        }
        proof {
            lemma_first_separator(untagged@, i as int);
        }
        let mut name = String::from_str(untagged.substring_char(0, i));
        name.append("-");
        name.append(tag.0.as_str());
        name.append(untagged.substring_char(i, n));
        name
    }
}

} // verus!
