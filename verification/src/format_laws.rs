//! What holds of the format resolver for every file name.

use vstd::prelude::*;

use crate::archive_format::{first_match, format_of_name, suffix_rules};
use crate::text::{has_suffix, lower};

verus! {

/// Two tails of one text: the shorter is a tail of the longer.
proof fn lemma_tail_of_tail(n: Seq<char>, a: Seq<char>, b: Seq<char>)
    requires
        has_suffix(n, a),
        has_suffix(n, b),
        a.len() <= b.len(),
    ensures
        has_suffix(b, a),
{
    let tail = b.subrange(b.len() - a.len(), b.len() as int);
    assert forall|k: int| 0 <= k < a.len() implies tail[k] == a[k] by {
        let nb = n.subrange(n.len() - b.len(), n.len() as int);
        let na = n.subrange(n.len() - a.len(), n.len() as int);
    }
    assert(tail =~= a);
}

/// A tail of at least two characters has the last two characters of the whole.
proof fn lemma_tail_ends(b: Seq<char>, a: Seq<char>)
    requires
        has_suffix(b, a),
        a.len() >= 2,
    ensures
        a[a.len() - 1] == b[b.len() - 1],
        a[a.len() - 2] == b[b.len() - 2],
{
}

/// For each rule: the length of its suffix and the suffix's last two characters.
spec fn rule_shape(k: int) -> (nat, char, char) {
    if k == 0 {
        (6, '.', 'z')
    } else if k == 1 {
        (7, 'g', 'z')
    } else if k == 2 {
        (4, 'g', 'z')
    } else if k == 3 {
        (8, 'z', '2')
    } else if k == 4 {
        (5, 'z', '2')
    } else if k == 5 {
        (7, 'l', 'z')
    } else if k == 6 {
        (7, 'x', 'z')
    } else if k == 7 {
        (4, 'x', 'z')
    } else if k == 8 {
        (9, 'm', 'a')
    } else if k == 9 {
        (4, 'l', 'z')
    } else if k == 10 {
        (7, '7', 'z')
    } else if k == 11 {
        (11, '0', '1')
    } else if k == 12 {
        (4, '7', 'z')
    } else if k == 13 {
        (8, 's', 't')
    } else if k == 14 {
        (4, 'a', 'r')
    } else if k == 15 {
        (2, '.', 'z')
    } else if k == 16 {
        (4, 'i', 'p')
    } else if k == 17 {
        (3, 'g', 'z')
    } else if k == 18 {
        (4, 'z', '2')
    } else if k == 19 {
        (3, 'l', 'z')
    } else if k == 20 {
        (3, 'x', 'z')
    } else if k == 21 {
        (5, 'm', 'a')
    } else if k == 22 {
        (3, '7', 'z')
    } else if k == 23 {
        (7, '0', '1')
    } else if k == 24 {
        (4, 'a', 'r')
    } else {
        (4, 's', 't')
    }
}

proof fn lemma_rule_shape(k: int)
    requires
        0 <= k < suffix_rules().len(),
    ensures
        suffix_rules()[k].0.len() == rule_shape(k).0,
        suffix_rules()[k].0.len() >= 2,
        suffix_rules()[k].0[suffix_rules()[k].0.len() - 2] == rule_shape(k).1,
        suffix_rules()[k].0[suffix_rules()[k].0.len() - 1] == rule_shape(k).2,
{
    if k == 0 {
        reveal_strlit(".tar.z");
    } else if k == 1 {
        reveal_strlit(".tar.gz");
    } else if k == 2 {
        reveal_strlit(".tgz");
    } else if k == 3 {
        reveal_strlit(".tar.bz2");
    } else if k == 4 {
        reveal_strlit(".tbz2");
    } else if k == 5 {
        reveal_strlit(".tar.lz");
    } else if k == 6 {
        reveal_strlit(".tar.xz");
    } else if k == 7 {
        reveal_strlit(".txz");
    } else if k == 8 {
        reveal_strlit(".tar.lzma");
    } else if k == 9 {
        reveal_strlit(".tlz");
    } else if k == 10 {
        reveal_strlit(".tar.7z");
    } else if k == 11 {
        reveal_strlit(".tar.7z.001");
    } else if k == 12 {
        reveal_strlit(".t7z");
    } else if k == 13 {
        reveal_strlit(".tar.zst");
    } else if k == 14 {
        reveal_strlit(".tar");
    } else if k == 15 {
        reveal_strlit(".z");
    } else if k == 16 {
        reveal_strlit(".zip");
    } else if k == 17 {
        reveal_strlit(".gz");
    } else if k == 18 {
        reveal_strlit(".bz2");
    } else if k == 19 {
        reveal_strlit(".lz");
    } else if k == 20 {
        reveal_strlit(".xz");
    } else if k == 21 {
        reveal_strlit(".lzma");
    } else if k == 22 {
        reveal_strlit(".7z");
    } else if k == 23 {
        reveal_strlit(".7z.001");
    } else if k == 24 {
        reveal_strlit(".rar");
    } else {
        reveal_strlit(".zst");
    }
}

/// Of two rules whose suffixes both end one text, the earlier suffix is at
/// least as long as the later one.
proof fn lemma_earlier_rule_is_longer(n: Seq<char>, i: int, j: int)
    requires
        0 <= i < j < suffix_rules().len(),
        has_suffix(n, suffix_rules()[i].0),
        has_suffix(n, suffix_rules()[j].0),
    ensures
        suffix_rules()[i].0.len() >= suffix_rules()[j].0.len(),
{
    let a = suffix_rules()[i].0;
    let b = suffix_rules()[j].0;
    lemma_rule_shape(i);
    lemma_rule_shape(j);
    if a.len() < b.len() {
        lemma_tail_of_tail(n, a, b);
        lemma_tail_ends(b, a);
    }
}

/// The first rule from `from` on that matches: its index.
proof fn lemma_first_match_index(n: Seq<char>, from: int, k: int) -> (i: int)
    requires
        0 <= from <= k < suffix_rules().len(),
        has_suffix(n, suffix_rules()[k].0),
    ensures
        from <= i <= k,
        has_suffix(n, suffix_rules()[i].0),
        first_match(n, suffix_rules(), from) == Some(suffix_rules()[i].1),
    decreases k - from,
{
    if has_suffix(n, suffix_rules()[from].0) {
        from
    } else {
        lemma_first_match_index(n, from + 1, k)
    }
}

/// Longest suffix wins: whenever a file name ends, case ignored, with the
/// suffix of some rule, the resolver answers with the format of a rule whose
/// suffix also ends the name and is at least as long as that one.
pub proof fn longest_suffix_wins(name: Seq<char>, k: int)
    requires
        0 <= k < suffix_rules().len(),
        has_suffix(lower(name), suffix_rules()[k].0),
    ensures
        exists|i: int|
            0 <= i < suffix_rules().len() && has_suffix(lower(name), (#[trigger] suffix_rules()[i]).0)
                && suffix_rules()[i].0.len() >= suffix_rules()[k].0.len() && format_of_name(name)
                == Some(suffix_rules()[i].1),
{
    let i = lemma_first_match_index(lower(name), 0, k);
    if i < k {
        lemma_earlier_rule_is_longer(lower(name), i, k);
    }
}

/// The rules of the tar-wrapped formats come before all others.
proof fn lemma_compound_rules_come_first(i: int, k: int)
    requires
        0 <= i <= k < suffix_rules().len(),
        suffix_rules()[k].1.is_tar_wrapped(),
    ensures
        suffix_rules()[i].1.is_tar_wrapped(),
{
}

/// Compound before simple: a file name that ends, case ignored, with the
/// suffix of a tar-wrapped format never resolves to a format that is not
/// tar-wrapped.
pub proof fn compound_suffix_gives_tar_wrapped(name: Seq<char>, k: int)
    requires
        0 <= k < suffix_rules().len(),
        suffix_rules()[k].1.is_tar_wrapped(),
        has_suffix(lower(name), suffix_rules()[k].0),
    ensures
        format_of_name(name) is Some,
        format_of_name(name)->0.is_tar_wrapped(),
{
    let i = lemma_first_match_index(lower(name), 0, k);
    lemma_compound_rules_come_first(i, k);
}

/// Simple suffixes stand on their own: a file name that ends, case
/// ignored, with the suffix of a format that is not tar-wrapped, and with
/// the suffix of no tar-wrapped format, resolves to the format of that
/// suffix.
pub proof fn simple_suffix_gives_its_format(name: Seq<char>, k: int)
    requires
        0 <= k < suffix_rules().len(),
        !suffix_rules()[k].1.is_tar_wrapped(),
        has_suffix(lower(name), suffix_rules()[k].0),
        forall|j: int|
            0 <= j < suffix_rules().len() && (#[trigger] suffix_rules()[j]).1.is_tar_wrapped()
                ==> !has_suffix(lower(name), suffix_rules()[j].0),
    ensures
        format_of_name(name) == Some(suffix_rules()[k].1),
{
    let n = lower(name);
    let i = lemma_first_match_index(n, 0, k);
    if i < k {
        let earlier = suffix_rules()[i].0;
        let later = suffix_rules()[k].0;
        lemma_earlier_rule_is_longer(n, i, k);
        lemma_rule_shape(i);
        lemma_rule_shape(k);
        lemma_tail_of_tail(n, later, earlier);
        lemma_tail_ends(earlier, later);
        if i == 14 && k == 24 {
            reveal_strlit(".tar");
            reveal_strlit(".rar");
            assert(".tar"@[1] != ".rar"@[1]);
        }
    }
}

/// The resolver ignores ASCII case.
pub proof fn resolver_ignores_case(a: Seq<char>, b: Seq<char>)
    requires
        lower(a) == lower(b),
    ensures
        format_of_name(a) == format_of_name(b),
{
}

} // verus!
