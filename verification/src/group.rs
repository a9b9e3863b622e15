//! Group paths.  A group's path lists the names from the top group down to
//! it, each after a `/`: `/top/child/grandchild`.  A path is built from
//! the names met walking up from a group through its parents, and read
//! back by walking down from the top, one name per level.
use vstd::prelude::*;
use vstd::string::*;
use crate::query::strings_view;
use crate::text::{
    is_segment, lemma_split_char_last, lemma_split_char_step, lemma_split_then_piece,
    lemma_split_without, split_char, str_split_once,
};

verus! {

/// `s` without its leading `/` characters.
pub open spec fn trim_slash_start(s: Seq<char>) -> Seq<char>
    decreases s.len(),
{
    if s.len() > 0 && s[0] == '/' {
        trim_slash_start(s.drop_first())
    } else {
        s
    }
}

/// `s` without its trailing `/` characters.
pub open spec fn trim_slash_end(s: Seq<char>) -> Seq<char>
    decreases s.len(),
{
    if s.len() > 0 && s.last() == '/' {
        trim_slash_end(s.drop_last())
    } else {
        s
    }
}

/// `s` without `/` at either end.
pub open spec fn trim_slashes(s: Seq<char>) -> Seq<char> {
    trim_slash_end(trim_slash_start(s))
}

/// The names along a group path, from the top group down: the path
/// without its outer `/` characters, split at each `/`.  `None` when the
/// path holds nothing but `/`.
pub open spec fn group_path_names(path: Seq<char>) -> Option<Seq<Seq<char>>> {
    let t = trim_slashes(path);
    if t.len() == 0 {
        None
    } else {
        Some(split_char(t, '/'))
    }
}

/// The view of an optional list of strings.
pub open spec fn opt_strings_view(o: Option<Vec<String>>) -> Option<Seq<Seq<char>>> {
    match o {
        Some(v) => Some(strings_view(v@)),
        None => None,
    }
}

/// The names met walking up from a group, joined from the top down with
/// `/` between them.
pub open spec fn joined_upward(names: Seq<Seq<char>>) -> Seq<char>
    decreases names.len(),
{
    if names.len() == 0 {
        Seq::empty()
    } else if names.len() == 1 {
        names[0]
    } else {
        joined_upward(names.drop_first()) + seq!['/'] + names[0]
    }
}

/// The path of a group, given the names met walking up from it: `/`
/// followed by the names from the top down, separated by `/`.
pub open spec fn group_path(names: Seq<Seq<char>>) -> Seq<char> {
    seq!['/'] + joined_upward(names)
}

/// `s` without `/` at either end.
fn str_trim_slashes<'a>(s: &'a str) -> (r: &'a str)
    ensures
        r@ == trim_slashes(s@),
{
    let n = s.unicode_len();
    let mut i: usize = 0;
    assert(s@.subrange(0, n as int) =~= s@);
    while i < n && s.get_char(i) == '/'
        invariant
            n == s@.len(),
            i <= n,
            trim_slash_start(s@) == trim_slash_start(s@.subrange(i as int, n as int)),
        decreases n - i,
    {
        assert(s@.subrange(i as int, n as int).drop_first() =~= s@.subrange(i + 1, n as int));
        i = i + 1;
    }
    let ghost front = s@.subrange(i as int, n as int);
    assert(trim_slash_start(s@) == front) by {
        if i < n {
            assert(front[0] == s@[i as int]);
        }
    }
    let mut j: usize = n;
    while j > i && s.get_char(j - 1) == '/'
        invariant
            n == s@.len(),
            i <= j <= n,
            front == s@.subrange(i as int, n as int),
            trim_slash_end(front) == trim_slash_end(s@.subrange(i as int, j as int)),
        decreases j - i,
    {
        assert(s@.subrange(i as int, j as int).drop_last() =~= s@.subrange(i as int, j - 1));
        j = j - 1;
    }
    let r = s.substring_char(i, j);
    assert(trim_slash_end(front) == r@) by {
        if j > i {
            assert(r@.last() == s@[j - 1]);
        }
    }
    r
}

/// All pieces of `value` separated by `/`, in order, empty ones included.
fn split_slashes(value: &str) -> (r: Vec<String>)
    ensures
        strings_view(r@) == split_char(value@, '/'),
{
    let mut out: Vec<String> = Vec::new();
    let mut rest = value;
    proof {
        reveal_strlit("/");
    }
    assert("/"@ =~= seq!['/']);
    assert(strings_view(out@) + split_char(rest@, '/') =~= split_char(value@, '/'));
    loop
        invariant
            "/"@ == seq!['/'],
            strings_view(out@) + split_char(rest@, '/') == split_char(value@, '/'),
        decreases rest@.len(),
    {
        match str_split_once(rest, "/") {
            Some((piece, r)) => {
                proof {
                    lemma_split_char_step(rest@, "/"@, piece@, r@);
                }
                let ghost before = strings_view(out@);
                out.push(piece.to_owned());
                assert(strings_view(out@) =~= before.push(piece@));
                rest = r;
                assert(strings_view(out@) + split_char(rest@, '/') =~= split_char(value@, '/'));
            },
            None => {
                proof {
                    lemma_split_char_last(rest@, "/"@);
                }
                let ghost before = strings_view(out@);
                out.push(rest.to_owned());
                assert(strings_view(out@) =~= before.push(rest@));
                assert(strings_view(out@) =~= split_char(value@, '/'));
                return out;
            },
        }
    }
}

/// The names along a group path, from the top group down, or `None` when
/// the path holds nothing but `/` (no group is named).
pub fn group_path_segments(path: &str) -> (r: Option<Vec<String>>)
    ensures
        opt_strings_view(r) == group_path_names(path@),
{
    let trimmed = str_trim_slashes(path);
    if trimmed.unicode_len() == 0 {
        None
    } else {
        Some(split_slashes(trimmed))
    }
}

/// The path of a group, given the names met walking up from it through
/// its parents (the group's own name first).
pub fn upward_group_path(names: &Vec<String>) -> (r: String)
    ensures
        r@ == group_path(strings_view(names@)),
{
    let ghost all = strings_view(names@);
    let n = names.len();
    let mut out = String::from_str("/");
    proof {
        reveal_strlit("/");
    }
    assert("/"@ =~= seq!['/']);
    let mut i: usize = n;
    assert(all.subrange(n as int, n as int) =~= Seq::<Seq<char>>::empty());
    while i > 0
        invariant
            "/"@ == seq!['/'],
            n == names@.len(),
            all == strings_view(names@),
            i <= n,
            out@ == seq!['/'] + joined_upward(all.subrange(i as int, n as int)),
        decreases i,
    {
        let ghost tail = all.subrange(i - 1, n as int);
        assert(tail.drop_first() =~= all.subrange(i as int, n as int));
        assert(tail[0] == names@[i - 1]@);
        if i < n {
            out.append("/");
        }
        out.append(names[i - 1].as_str());
        i = i - 1;
        assert(out@ =~= seq!['/'] + joined_upward(all.subrange(i as int, n as int)));
    }
    assert(all.subrange(0, n as int) =~= all);
    out
}

/// The joined names split back into the names from the top down; the
/// joined text starts with the top name and ends with the group's own.
proof fn lemma_joined_upward(names: Seq<Seq<char>>)
    requires
        names.len() > 0,
        forall|i: int| 0 <= i < names.len() ==> is_segment(#[trigger] names[i]),
    ensures
        split_char(joined_upward(names), '/') == names.reverse(),
        joined_upward(names).len() > 0,
        joined_upward(names)[0] == names.last()[0],
        joined_upward(names).last() == names[0].last(),
    decreases names.len(),
{
    if names.len() == 1 {
        assert(is_segment(names[0]));
        lemma_split_without(names[0], '/');
        assert(names.reverse() =~= seq![names[0]]);
    } else {
        let rest = names.drop_first();
        assert forall|i: int| 0 <= i < rest.len() implies is_segment(#[trigger] rest[i]) by {
            assert(rest[i] == names[i + 1]);
        }
        lemma_joined_upward(rest);
        assert(is_segment(names[0]));
        lemma_split_then_piece(joined_upward(rest), '/', names[0]);
        assert(names.reverse() =~= rest.reverse() + seq![names[0]]);
        assert(rest.last() == names.last());
    }
}

/// The path built from the names met walking up from a group reads back
/// as those names from the top down: what a group's path is written as
/// is what a lookup by path walks, level by level.
pub proof fn lemma_group_path_reads_back(names: Seq<Seq<char>>)
    requires
        names.len() > 0,
        forall|i: int| 0 <= i < names.len() ==> is_segment(#[trigger] names[i]),
    ensures
        group_path_names(group_path(names)) == Some(names.reverse()),
{
    lemma_joined_upward(names);
    let j = joined_upward(names);
    let p = group_path(names);
    assert(is_segment(names.last()));
    assert(is_segment(names[0]));
    assert(names.last().contains(names.last()[0]));
    assert(names[0].contains(names[0].last()));
    assert(p.drop_first() =~= j);
    assert(trim_slash_start(p) == trim_slash_start(j));
    assert(trim_slash_start(j) == j);
    assert(trim_slash_end(j) == j);
}

} // verus!
