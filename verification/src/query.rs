//! The query string of the page address: `?key=value&key=value`, as bytes.
//!
//! Leading question marks are dropped. The rest is cut at every `&`; a piece
//! that holds an `=` gives a key, the text before its first `=`, and a value,
//! the text between its first and its second `=` or its end. A piece
//! without an `=` gives nothing. Where a key comes twice, the later value
//! counts.

use vstd::prelude::*;

verus! {

/// A key and its value.
pub type Pair = (Seq<u8>, Seq<u8>);

/// The first position in `from..end` at which `text` holds `mark`, or `end`
/// if there is none.
pub open spec fn find(text: Seq<u8>, mark: u8, from: int, end: int) -> int
    decreases end - from,
{
    if from >= end {
        end
    } else if text[from] == mark {
        from
    } else {
        find(text, mark, from + 1, end)
    }
}

/// The first position from `from` on at which `text` holds no question
/// mark, or its length.
pub open spec fn after_marks(text: Seq<u8>, from: int) -> int
    decreases text.len() - from,
{
    if from >= text.len() {
        text.len() as int
    } else if text[from] != 0x3f {
        from
    } else {
        after_marks(text, from + 1)
    }
}

/// What the piece `from..end` of `text` gives.
pub open spec fn pair_in(text: Seq<u8>, from: int, end: int) -> Option<Pair> {
    let equals = find(text, 0x3d, from, end);
    if equals == end {
        None
    } else {
        Some(
            (text.subrange(from, equals), text.subrange(equals + 1, find(text, 0x3d, equals + 1, end))),
        )
    }
}

/// `find` never leaves `from..=end`.
proof fn lemma_find_in_range(text: Seq<u8>, mark: u8, from: int, end: int)
    requires
        from <= end,
    ensures
        from <= find(text, mark, from, end) <= end,
    decreases end - from,
{
    if from < end && text[from] != mark {
        lemma_find_in_range(text, mark, from + 1, end);
    }
}

#[via_fn]
proof fn pairs_from_ends(text: Seq<u8>, from: int) {
    if 0 <= from <= text.len() {
        lemma_find_in_range(text, 0x26, from, text.len() as int);
    }
}

/// The pairs that the pieces of `text` from position `from` on give, in
/// order. A position past the end of `text` stands for no piece at all.
pub open spec fn pairs_from(text: Seq<u8>, from: int) -> Seq<Pair>
    decreases text.len() - from + 1,
    via pairs_from_ends
{
    if from > text.len() || from < 0 {
        Seq::empty()
    } else {
        let end = find(text, 0x26, from, text.len() as int);
        let rest = pairs_from(text, end + 1);
        match pair_in(text, from, end) {
            Some(pair) => seq![pair] + rest,
            None => rest,
        }
    }
}

/// The pairs of a query string, in order.
pub open spec fn query_pairs(query: Seq<u8>) -> Seq<Pair> {
    pairs_from(query, after_marks(query, 0))
}

/// The value of the last pair with key `key`, if there is one.
pub open spec fn last_value(pairs: Seq<Pair>, key: Seq<u8>) -> Option<Seq<u8>>
    decreases pairs.len(),
{
    if pairs.len() == 0 {
        None
    } else if pairs.last().0 == key {
        Some(pairs.last().1)
    } else {
        last_value(pairs.drop_last(), key)
    }
}

/// Parsed pairs as sequences of bytes.
pub open spec fn pairs_view(params: Seq<(Vec<u8>, Vec<u8>)>) -> Seq<Pair> {
    Seq::new(params.len(), |i: int| (params[i].0@, params[i].1@))
}

fn find_byte(text: &[u8], mark: u8, from: usize, end: usize) -> (at: usize)
    requires
        from <= end <= text.len(),
    ensures
        at == find(text@, mark, from as int, end as int),
        from <= at <= end,
{
    let mut at: usize = from;
    while at < end && text[at] != mark
        invariant
            from <= at <= end <= text.len(),
            find(text@, mark, from as int, end as int) == find(text@, mark, at as int, end as int),
        decreases end - at,
    {
        at += 1;
    }
    at
}

fn copy_range(text: &[u8], from: usize, end: usize) -> (copy: Vec<u8>)
    requires
        from <= end <= text.len(),
    ensures
        copy@ == text@.subrange(from as int, end as int),
{
    let mut copy: Vec<u8> = Vec::new();
    let mut at: usize = from;
    while at < end
        invariant
            from <= at <= end <= text.len(),
            copy@ == text@.subrange(from as int, at as int),
        decreases end - at,
    {
        copy.push(text[at]);
        at += 1;
    }
    copy
}

fn same_bytes(left: &[u8], right: &[u8]) -> (same: bool)
    ensures
        same == (left@ == right@),
{
    if left.len() != right.len() {
        return false;
    }
    let mut at: usize = 0;
    while at < left.len()
        invariant
            at <= left.len() == right.len(),
            forall|i: int| 0 <= i < at ==> left@[i] == right@[i],
        decreases left.len() - at,
    {
        if left[at] != right[at] {
            return false;
        }
        at += 1;
    }
    assert(left@ =~= right@);
    true
}

/// Parses a query string into its pairs, in order.
pub fn parse_query_string(query_string: &[u8]) -> (params: Vec<(Vec<u8>, Vec<u8>)>)
    requires
        query_string.len() < usize::MAX,
    ensures
        pairs_view(params@) == query_pairs(query_string@),
{
    let len = query_string.len();
    let mut from: usize = 0;
    while from < len && query_string[from] == 0x3f
        invariant
            from <= len == query_string.len(),
            after_marks(query_string@, 0) == after_marks(query_string@, from as int),
        decreases len - from,
    {
        from += 1;
    }
    let ghost start = from;
    let mut params: Vec<(Vec<u8>, Vec<u8>)> = Vec::new();
    while from <= len
        invariant
            from <= len + 1,
            len == query_string.len(),
            len < usize::MAX,
            pairs_from(query_string@, start as int) == pairs_view(params@) + pairs_from(
                query_string@,
                from as int,
            ),
        decreases len + 1 - from,
    {
        let end = find_byte(query_string, 0x26, from, len);
        let equals = find_byte(query_string, 0x3d, from, end);
        if equals != end {
            let value_end = find_byte(query_string, 0x3d, equals + 1, end);
            let key = copy_range(query_string, from, equals);
            let value = copy_range(query_string, equals + 1, value_end);
            params.push((key, value));
        }
        assert(pairs_from(query_string@, start as int) =~= pairs_view(params@) + pairs_from(
            query_string@,
            end + 1,
        ));
        from = end + 1;
    }
    params
}

/// The place in `params` of the value that counts for `key`: that of the
/// last pair with this key.
pub fn query_value(params: &Vec<(Vec<u8>, Vec<u8>)>, key: &[u8]) -> (place: Option<usize>)
    ensures
        match place {
            Some(i) => i < params.len() && params[i as int].0@ == key@ && last_value(
                pairs_view(params@),
                key@,
            ) == Some(params[i as int].1@),
            None => last_value(pairs_view(params@), key@).is_none(),
        },
{
    let ghost pairs = pairs_view(params@);
    let mut at: usize = params.len();
    assert(pairs.take(at as int) =~= pairs);
    while at > 0
        invariant
            at <= params.len(),
            pairs == pairs_view(params@),
            last_value(pairs, key@) == last_value(pairs.take(at as int), key@),
        decreases at,
    {
        at -= 1;
        assert(pairs.take(at + 1).drop_last() =~= pairs.take(at as int));
        if same_bytes(params[at].0.as_slice(), key) {
            return Some(at);
        }
    }
    None
}

} // verus!
