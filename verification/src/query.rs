//! The query string of a request: `name=value` pairs separated by `&`.
//!
//! A piece without `=` has an empty value.  Values are taken as they are
//! written; no percent-decoding takes place.
use vstd::prelude::*;
use vstd::string::*;
use crate::num::{i64_of, parse_i64};
use crate::text::{
    find, lemma_find_from_props, lemma_split_char_last, lemma_split_char_step,
    lemma_split_char_pieces, lemma_split_join, lemma_split_then_piece, lemma_split_without, lemma_trim_idempotent, split_char, str_find, str_split_once, str_trim, str_eq, trim,
};

verus! {

/// The name and the value of a piece: the parts around its first `=`, or
/// the whole piece and an empty value.
pub open spec fn name_value(piece: Seq<char>) -> (Seq<char>, Seq<char>) {
    match find(piece, "="@) {
        Some(i) => (piece.subrange(0, i), piece.subrange(i + 1, piece.len() as int)),
        None => (piece, Seq::empty()),
    }
}

/// The value of the first non-empty piece whose name is `key`.
pub open spec fn lookup(pieces: Seq<Seq<char>>, key: Seq<char>) -> Option<Seq<char>>
    decreases pieces.len(),
{
    if pieces.len() == 0 {
        None
    } else if pieces[0].len() > 0 && name_value(pieces[0]).0 == key {
        Some(name_value(pieces[0]).1)
    } else {
        lookup(pieces.drop_first(), key)
    }
}

/// The pairs of the non-empty pieces with non-empty names, in order.
pub open spec fn pairs_of(pieces: Seq<Seq<char>>) -> Seq<(Seq<char>, Seq<char>)>
    decreases pieces.len(),
{
    if pieces.len() == 0 {
        Seq::empty()
    } else {
        let nv = name_value(pieces[0]);
        if pieces[0].len() > 0 && nv.0.len() > 0 {
            seq![nv] + pairs_of(pieces.drop_first())
        } else {
            pairs_of(pieces.drop_first())
        }
    }
}

/// The pairs of a query string.
pub open spec fn query_pairs(q: Seq<char>) -> Seq<(Seq<char>, Seq<char>)> {
    pairs_of(split_char(q, '&'))
}

/// The values given for `key`, in order.
pub open spec fn values_of(pairs: Seq<(Seq<char>, Seq<char>)>, key: Seq<char>) -> Seq<Seq<char>>
    decreases pairs.len(),
{
    if pairs.len() == 0 {
        Seq::empty()
    } else if pairs[0].0 == key {
        seq![pairs[0].1] + values_of(pairs.drop_first(), key)
    } else {
        values_of(pairs.drop_first(), key)
    }
}

/// The first value given for `key`.
pub open spec fn first_value(pairs: Seq<(Seq<char>, Seq<char>)>, key: Seq<char>) -> Option<Seq<char>> {
    let vs = values_of(pairs, key);
    if vs.len() > 0 {
        Some(vs[0])
    } else {
        None
    }
}

/// The trimmed, non-empty items of a list of comma-separated pieces.
pub open spec fn items_of_pieces(ps: Seq<Seq<char>>) -> Seq<Seq<char>>
    decreases ps.len(),
{
    if ps.len() == 0 {
        Seq::empty()
    } else if trim(ps[0]).len() > 0 {
        seq![trim(ps[0])] + items_of_pieces(ps.drop_first())
    } else {
        items_of_pieces(ps.drop_first())
    }
}

/// The items of several comma-separated values, in order.
pub open spec fn list_items(vs: Seq<Seq<char>>) -> Seq<Seq<char>>
    decreases vs.len(),
{
    if vs.len() == 0 {
        Seq::empty()
    } else {
        items_of_pieces(split_char(vs[0], ',')) + list_items(vs.drop_first())
    }
}

/// The parameters of a query string: its `name=value` pairs in order,
/// leaving out empty pieces and pieces with an empty name.
pub struct QueryParams {
    pairs: Vec<(String, String)>,
}

impl QueryParams {
    /// The pairs as plain values.
    pub closed spec fn pairs_view(&self) -> Seq<(Seq<char>, Seq<char>)> {
        self.pairs@.map_values(|p: (String, String)| (p.0@, p.1@))
    }
}

/// The view of a list of strings.
pub open spec fn strings_view(v: Seq<String>) -> Seq<Seq<char>> {
    v.map_values(|s: String| s@)
}

/// The view of an optional string.
pub open spec fn opt_string_view(o: Option<String>) -> Option<Seq<char>> {
    match o {
        Some(s) => Some(s@),
        None => None,
    }
}

proof fn lemma_split_step(rest: Seq<char>, piece: Seq<char>, r: Seq<char>)
    requires
        crate::text::split_once(rest, "&"@) == Some((piece, r)),
    ensures
        split_char(rest, '&') == seq![piece] + split_char(r, '&'),
        r.len() < rest.len(),
{
    reveal_strlit("&");
    assert("&"@ =~= seq!['&']);
    lemma_find_from_props(rest, "&"@, 0);
}

proof fn lemma_split_last(rest: Seq<char>)
    requires
        crate::text::split_once(rest, "&"@) is None,
    ensures
        split_char(rest, '&') == seq![rest],
{
    reveal_strlit("&");
    assert("&"@ =~= seq!['&']);
}

fn split_name_value(piece: &str) -> (r: (&str, &str))
    ensures
        (r.0@, r.1@) == name_value(piece@),
{
    match str_split_once(piece, "=") {
        Some((a, b)) => {
            proof {
                lemma_find_from_props(piece@, "="@, 0);
                reveal_strlit("=");
            }
            (a, b)
        },
        None => {
            proof {
                reveal_strlit("");
            }
            (piece, "")
        },
    }
}

/// The value of the first non-empty piece of `query` whose name is `key`.
pub fn query_param(query: &str, key: &str) -> (r: Option<String>)
    ensures
        opt_string_view(r) == lookup(split_char(query@, '&'), key@),
{
    let mut rest = query;
    loop
        invariant
            lookup(split_char(query@, '&'), key@) == lookup(split_char(rest@, '&'), key@),
        decreases rest@.len(),
    {
        match str_split_once(rest, "&") {
            Some((piece, r)) => {
                proof {
                    lemma_split_step(rest@, piece@, r@);
                    lemma_find_from_props(rest@, "&"@, 0);
                    assert((seq![piece@] + split_char(r@, '&')).drop_first() =~= split_char(r@, '&'));
                }
                if piece.unicode_len() > 0 {
                    let (name, value) = split_name_value(piece);
                    if str_eq(name, key) {
                        return Some(value.to_owned());
                    }
                }
                rest = r;
            },
            None => {
                proof {
                    lemma_split_last(rest@);
                    assert(seq![rest@].drop_first() =~= Seq::<Seq<char>>::empty());
                    assert(lookup(Seq::<Seq<char>>::empty(), key@) is None);
                }
                if rest.unicode_len() > 0 {
                    let (name, value) = split_name_value(rest);
                    if str_eq(name, key) {
                        return Some(value.to_owned());
                    }
                }
                return None;
            },
        }
    }
}

/// Adds the pair of a piece to `out` when the piece and its name are not
/// empty.
fn push_piece(out: &mut Vec<(String, String)>, piece: &str)
    ensures
        final(out)@.map_values(|p: (String, String)| (p.0@, p.1@)) == old(out)@.map_values(
            |p: (String, String)| (p.0@, p.1@),
        ) + pairs_of(seq![piece@]),
{
    let ghost before = old(out)@.map_values(|p: (String, String)| (p.0@, p.1@));
    assert(seq![piece@].drop_first() =~= Seq::<Seq<char>>::empty());
    assert(pairs_of(Seq::<Seq<char>>::empty()) == Seq::<(Seq<char>, Seq<char>)>::empty());
    if piece.unicode_len() > 0 {
        let (name, value) = split_name_value(piece);
        if name.unicode_len() > 0 {
            out.push((name.to_owned(), value.to_owned()));
            assert(out@.map_values(|p: (String, String)| (p.0@, p.1@)) =~= before + pairs_of(
                seq![piece@],
            ));
            return;
        }
    }
    assert(out@.map_values(|p: (String, String)| (p.0@, p.1@)) =~= before + pairs_of(
        seq![piece@],
    ));
}

proof fn lemma_pairs_of_append(a: Seq<Seq<char>>, b: Seq<Seq<char>>)
    ensures
        pairs_of(a + b) == pairs_of(a) + pairs_of(b),
    decreases a.len(),
{
    if a.len() == 0 {
        assert(a + b =~= b);
    } else {
        assert((a + b).drop_first() =~= a.drop_first() + b);
        lemma_pairs_of_append(a.drop_first(), b);
    }
}

/// The parameters of a query string: every non-empty `name=value` piece
/// with a non-empty name, in order.
pub fn parse_query_params(query: &str) -> (r: QueryParams)
    ensures
        r.pairs_view() == query_pairs(query@),
{
    let mut out: Vec<(String, String)> = Vec::new();
    let mut rest = query;
    loop
        invariant
            query_pairs(query@) == out@.map_values(|p: (String, String)| (p.0@, p.1@)) + pairs_of(
                split_char(rest@, '&'),
            ),
        decreases rest@.len(),
    {
        let ghost before = out@.map_values(|p: (String, String)| (p.0@, p.1@));
        match str_split_once(rest, "&") {
            Some((piece, r)) => {
                proof {
                    lemma_split_step(rest@, piece@, r@);
                    lemma_find_from_props(rest@, "&"@, 0);
                    lemma_pairs_of_append(seq![piece@], split_char(r@, '&'));
                }
                push_piece(&mut out, piece);
                rest = r;
                assert(query_pairs(query@) =~= out@.map_values(|p: (String, String)| (p.0@, p.1@))
                    + pairs_of(split_char(rest@, '&')));
            },
            None => {
                proof {
                    lemma_split_last(rest@);
                }
                push_piece(&mut out, rest);
                return QueryParams { pairs: out };
            },
        }
    }
}

/// The first value given for `key`.
pub fn first_param(params: &QueryParams, key: &str) -> (r: Option<String>)
    ensures
        opt_string_view(r) == first_value(params.pairs_view(), key@),
{
    let ghost all = params.pairs_view();
    let n = params.pairs.len();
    let mut i: usize = 0;
    assert(all.subrange(0, n as int) =~= all);
    while i < n
        invariant
            n == params.pairs@.len(),
            all == params.pairs_view(),
            all.len() == n,
            i <= n,
            values_of(all, key@) == values_of(all.subrange(i as int, n as int), key@),
        decreases n - i,
    {
        let ghost tail = all.subrange(i as int, n as int);
        assert(tail[0] == (params.pairs@[i as int].0@, params.pairs@[i as int].1@));
        if str_eq(params.pairs[i].0.as_str(), key) {
            return Some(params.pairs[i].1.clone());
        }
        assert(tail.drop_first() =~= all.subrange(i + 1, n as int));
        i = i + 1;
    }
    None
}

/// The first value given for `key`, read as a signed 64-bit integer.
pub open spec fn int_value(pairs: Seq<(Seq<char>, Seq<char>)>, key: Seq<char>) -> Option<i64> {
    match first_value(pairs, key) {
        Some(v) => i64_of(v),
        None => None,
    }
}

/// The first value given for `key`, read as a signed 64-bit integer; `None`
/// when there is none or it is not such an integer.
pub fn int_param(params: &QueryParams, key: &str) -> (r: Option<i64>)
    ensures
        r == int_value(params.pairs_view(), key@),
{
    match first_param(params, key) {
        Some(v) => parse_i64(v.as_str()),
        None => None,
    }
}

/// A point in time given in milliseconds since the epoch: the first value
/// of `key` read as a signed 64-bit integer.
pub fn parse_epoch_millis(params: &QueryParams, key: &str) -> (r: Option<i64>)
    ensures
        r == int_value(params.pairs_view(), key@),
{
    let value = match first_param(params, key) {
        Some(v) => v,
        None => return None,
    };
    parse_i64(value.as_str())
}

/// Adds the trimmed piece to `out` when it is not empty.
fn push_item(out: &mut Vec<String>, piece: &str)
    ensures
        strings_view(final(out)@) == strings_view(old(out)@) + items_of_pieces(seq![piece@]),
{
    let ghost before = strings_view(out@);
    assert(seq![piece@].drop_first() =~= Seq::<Seq<char>>::empty());
    assert(items_of_pieces(Seq::<Seq<char>>::empty()) == Seq::<Seq<char>>::empty());
    let trimmed = str_trim(piece);
    if trimmed.unicode_len() > 0 {
        out.push(trimmed.to_owned());
    }
    assert(strings_view(out@) =~= before + items_of_pieces(seq![piece@]));
}

proof fn lemma_items_append(a: Seq<Seq<char>>, b: Seq<Seq<char>>)
    ensures
        items_of_pieces(a + b) == items_of_pieces(a) + items_of_pieces(b),
    decreases a.len(),
{
    if a.len() == 0 {
        assert(a + b =~= b);
    } else {
        assert((a + b).drop_first() =~= a.drop_first() + b);
        lemma_items_append(a.drop_first(), b);
    }
}

/// Adds the trimmed, non-empty items of `value` separated by `sep` to
/// `out`.
fn push_items(out: &mut Vec<String>, value: &str, sep: &str)
    requires
        sep@.len() == 1,
    ensures
        strings_view(final(out)@) == strings_view(old(out)@) + items_of_pieces(split_char(value@, sep@[0])),
{
    let mut rest = value;
    let ghost c = sep@[0];
    let ghost start = strings_view(out@);
    assert(start + items_of_pieces(split_char(value@, c)) =~= strings_view(out@)
        + items_of_pieces(split_char(rest@, c)));
    loop
        invariant
            sep@.len() == 1,
            c == sep@[0],
            start == strings_view(old(out)@),
            start + items_of_pieces(split_char(value@, c)) == strings_view(out@) + items_of_pieces(
                split_char(rest@, c),
            ),
        decreases rest@.len(),
    {
        match str_split_once(rest, sep) {
            Some((piece, r)) => {
                proof {
                    lemma_split_char_step(rest@, sep@, piece@, r@);
                    lemma_items_append(seq![piece@], split_char(r@, c));
                }
                push_item(out, piece);
                rest = r;
                assert(start + items_of_pieces(split_char(value@, c)) =~= strings_view(out@)
                    + items_of_pieces(split_char(rest@, c)));
            },
            None => {
                proof {
                    lemma_split_char_last(rest@, sep@);
                }
                push_item(out, rest);
                return;
            },
        }
    }
}

/// The trimmed, non-empty items of `value` separated by the one-character
/// `sep`, in order.
pub fn split_trimmed(value: &str, sep: &str) -> (r: Vec<String>)
    requires
        sep@.len() == 1,
    ensures
        strings_view(r@) == items_of_pieces(split_char(value@, sep@[0])),
{
    let mut out: Vec<String> = Vec::new();
    assert(strings_view(out@) =~= Seq::<Seq<char>>::empty());
    push_items(&mut out, value, sep);
    assert(strings_view(out@) =~= items_of_pieces(split_char(value@, sep@[0])));
    out
}

/// The items given for `key`: each value is split at `,`, each piece is
/// trimmed of whitespace, and empty pieces are left out.
pub fn list_param(params: &QueryParams, key: &str) -> (r: Vec<String>)
    ensures
        strings_view(r@) == list_items(values_of(params.pairs_view(), key@)),
{
    let ghost all = params.pairs_view();
    let n = params.pairs.len();
    let mut out: Vec<String> = Vec::new();
    let mut i: usize = 0;
    assert(all.subrange(0, n as int) =~= all);
    assert(strings_view(out@) =~= Seq::<Seq<char>>::empty());
    while i < n
        invariant
            n == params.pairs@.len(),
            all == params.pairs_view(),
            all.len() == n,
            i <= n,
            list_items(values_of(all, key@)) == strings_view(out@) + list_items(
                values_of(all.subrange(i as int, n as int), key@),
            ),
        decreases n - i,
    {
        let ghost tail = all.subrange(i as int, n as int);
        let ghost before = strings_view(out@);
        assert(tail[0] == (params.pairs@[i as int].0@, params.pairs@[i as int].1@));
        assert(tail.drop_first() =~= all.subrange(i + 1, n as int));
        if str_eq(params.pairs[i].0.as_str(), key) {
            let ghost v = tail[0].1;
            let ghost later = values_of(all.subrange(i + 1, n as int), key@);
            assert((seq![v] + later)[0] == v);
            assert((seq![v] + later).drop_first() =~= later);
            proof {
                reveal_strlit(",");
            }
            assert(","@ =~= seq![',']);
            push_items(&mut out, params.pairs[i].1.as_str(), ",");
            assert(list_items(values_of(all, key@)) =~= strings_view(out@) + list_items(later));
        }
        i = i + 1;
    }
    out
}


/// A yes/no parameter: whether its first value is `true`, or `default`
/// when it is not given.
pub open spec fn flag_value(pairs: Seq<(Seq<char>, Seq<char>)>, key: Seq<char>, default: bool) -> bool {
    match first_value(pairs, key) {
        Some(v) => v == "true"@,
        None => default,
    }
}

/// A yes/no parameter: whether its first value is `true`, or `default`
/// when it is not given.
pub fn flag_param(params: &QueryParams, key: &str, default: bool) -> (r: bool)
    ensures
        r == flag_value(params.pairs_view(), key@, default),
{
    match first_param(params, key) {
        Some(v) => str_eq(v.as_str(), "true"),
        None => default,
    }
}

proof fn lemma_lookup_pairs(pieces: Seq<Seq<char>>, key: Seq<char>)
    requires
        key.len() > 0,
    ensures
        lookup(pieces, key) == first_value(pairs_of(pieces), key),
    decreases pieces.len(),
{
    if pieces.len() > 0 {
        lemma_lookup_pairs(pieces.drop_first(), key);
        let nv = name_value(pieces[0]);
        let rest = pairs_of(pieces.drop_first());
        if pieces[0].len() > 0 && nv.0.len() > 0 {
            let all = seq![nv] + rest;
            assert(all[0] == nv);
            assert(all.drop_first() =~= rest);
        }
    }
}

/// Looking a key up directly in a query string agrees with parsing the
/// query string first and taking the key's first value, for every
/// non-empty key.
pub proof fn lemma_query_param_agrees(query: Seq<char>, key: Seq<char>)
    requires
        key.len() > 0,
    ensures
        lookup(split_char(query, '&'), key) == first_value(query_pairs(query), key),
{
    lemma_lookup_pairs(split_char(query, '&'), key);
}
/// `parts` written one after the other with `,` between them.
pub open spec fn comma_joined(parts: Seq<Seq<char>>) -> Seq<char>
    decreases parts.len(),
{
    if parts.len() == 0 {
        Seq::empty()
    } else if parts.len() == 1 {
        parts[0]
    } else {
        comma_joined(parts.drop_last()) + seq![','] + parts.last()
    }
}

/// `parts` written one after the other with `,` between them, as a list
/// of strings is stored in a single column.
pub fn join_commas(parts: &Vec<String>) -> (r: String)
    ensures
        r@ == comma_joined(strings_view(parts@)),
{
    let ghost all = strings_view(parts@);
    let n = parts.len();
    let mut out = String::new();
    proof {
        reveal_strlit(",");
    }
    let mut i: usize = 0;
    assert(all.subrange(0, 0) =~= Seq::<Seq<char>>::empty());
    while i < n
        invariant
            ","@ == seq![','],
            n == parts@.len(),
            all == strings_view(parts@),
            i <= n,
            out@ == comma_joined(all.subrange(0, i as int)),
        decreases n - i,
    {
        let ghost pre = all.subrange(0, i + 1);
        assert(pre.drop_last() =~= all.subrange(0, i as int));
        assert(pre.last() == parts@[i as int]@);
        if i > 0 {
            out.append(",");
        }
        out.append(parts[i].as_str());
        i = i + 1;
        assert(out@ =~= comma_joined(all.subrange(0, i as int)));
    }
    assert(all.subrange(0, n as int) =~= all);
    out
}

/// Parts without `,`, joined, split back at `,` into the same parts.
pub proof fn lemma_comma_joined_splits_back(parts: Seq<Seq<char>>)
    requires
        parts.len() > 0,
        forall|i: int| 0 <= i < parts.len() ==> !(#[trigger] parts[i]).contains(','),
    ensures
        split_char(comma_joined(parts), ',') == parts,
    decreases parts.len(),
{
    if parts.len() == 1 {
        lemma_split_without(parts[0], ',');
        assert(seq![parts[0]] =~= parts);
    } else {
        let front = parts.drop_last();
        assert forall|i: int| 0 <= i < front.len() implies !(#[trigger] front[i]).contains(',') by {
            assert(front[i] == parts[i]);
        }
        lemma_comma_joined_splits_back(front);
        assert(!parts[parts.len() - 1].contains(','));
        lemma_split_then_piece(comma_joined(front), ',', parts.last());
        assert(front + seq![parts.last()] =~= parts);
    }
}

/// An item of a list: not empty, no whitespace at either end, and free of
/// the separator `c`.
pub open spec fn clean_item(item: Seq<char>, c: char) -> bool {
    item.len() > 0 && trim(item) == item && !item.contains(c)
}

/// The trimmed, non-empty items of pieces that are free of `c` are clean.
pub proof fn lemma_items_of_pieces_clean(ps: Seq<Seq<char>>, c: char)
    requires
        forall|i: int| 0 <= i < ps.len() ==> !(#[trigger] ps[i]).contains(c),
    ensures
        forall|i: int| 0 <= i < items_of_pieces(ps).len() ==> clean_item(#[trigger] items_of_pieces(ps)[i], c),
    decreases ps.len(),
{
    if ps.len() > 0 {
        let rest = ps.drop_first();
        assert forall|i: int| 0 <= i < rest.len() implies !(#[trigger] rest[i]).contains(c) by {
            assert(rest[i] == ps[i + 1]);
        }
        lemma_items_of_pieces_clean(rest, c);
        lemma_trim_idempotent(ps[0]);
        assert(!ps[0].contains(c));
        if trim(ps[0]).len() > 0 {
            let items = items_of_pieces(ps);
            assert forall|i: int| 0 <= i < items.len() implies clean_item(#[trigger] items[i], c) by {
                if i == 0 {
                    assert(items[0] == trim(ps[0]));
                } else {
                    assert(items[i] == items_of_pieces(rest)[i - 1]);
                }
            }
        } else {
            assert(items_of_pieces(ps) == items_of_pieces(rest));
        }
    }
}

/// Every item that `list_param` gives is non-empty, has no whitespace at
/// either end and holds no `,`.
pub proof fn lemma_list_items_clean(vs: Seq<Seq<char>>)
    ensures
        forall|i: int| 0 <= i < list_items(vs).len() ==> clean_item(#[trigger] list_items(vs)[i], ','),
    decreases vs.len(),
{
    if vs.len() > 0 {
        lemma_split_char_pieces(vs[0], ',');
        lemma_items_of_pieces_clean(split_char(vs[0], ','), ',');
        lemma_list_items_clean(vs.drop_first());
        let a = items_of_pieces(split_char(vs[0], ','));
        let b = list_items(vs.drop_first());
        assert forall|i: int| 0 <= i < list_items(vs).len() implies clean_item(#[trigger] list_items(vs)[i], ',') by {
            if i < a.len() {
                assert(list_items(vs)[i] == a[i]);
            } else {
                assert(list_items(vs)[i] == b[i - a.len()]);
            }
        }
    }
}
proof fn lemma_values_of_append(p: Seq<(Seq<char>, Seq<char>)>, q: Seq<(Seq<char>, Seq<char>)>, key: Seq<char>)
    ensures
        values_of(p + q, key) == values_of(p, key) + values_of(q, key),
    decreases p.len(),
{
    if p.len() == 0 {
        assert(p + q =~= q);
    } else {
        assert((p + q).drop_first() =~= p.drop_first() + q);
        lemma_values_of_append(p.drop_first(), q, key);
        if p[0].0 == key {
            assert(values_of(p + q, key) =~= seq![p[0].1] + (values_of(p.drop_first(), key) + values_of(q, key)));
        }
    }
}

/// Joining two query strings with `&` joins their parameters: the pairs of
/// the joined string are those of the first and then those of the second,
/// so every name's values are its values in the first string followed by
/// its values in the second.
pub proof fn lemma_joined_query_values(a: Seq<char>, b: Seq<char>, key: Seq<char>)
    ensures
        query_pairs(a + "&"@ + b) == query_pairs(a) + query_pairs(b),
        values_of(query_pairs(a + "&"@ + b), key) == values_of(query_pairs(a), key) + values_of(
            query_pairs(b),
            key,
        ),
{
    reveal_strlit("&");
    assert("&"@ =~= seq!['&']);
    lemma_split_join(a, '&', b);
    lemma_pairs_of_append(split_char(a, '&'), split_char(b, '&'));
    lemma_values_of_append(query_pairs(a), query_pairs(b), key);
}
} // verus!
