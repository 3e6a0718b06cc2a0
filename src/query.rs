//! Query strings of the redirect: `key=value` pairs joined by `&`.

use crate::text::{split, split_chars, views};
use vstd::prelude::*;

verus! {

/// The index of the first `sep` in `p`, or `p.len()` where there is none.
pub open spec fn first_pos(p: Seq<char>, sep: char) -> int
    decreases p.len(),
{
    if p.len() == 0 {
        0
    } else if p[0] == sep {
        0
    } else {
        1 + first_pos(p.drop_first(), sep)
    }
}

/// The key of a pair: what precedes its first `=`.
pub open spec fn pair_key(p: Seq<char>) -> Seq<char> {
    p.subrange(0, first_pos(p, '='))
}

/// The value of a pair: what follows its first `=`, empty where it has none.
pub open spec fn pair_value(p: Seq<char>) -> Seq<char> {
    let i = first_pos(p, '=');
    if i < p.len() {
        p.subrange(i + 1, p.len() as int)
    } else {
        Seq::<char>::empty()
    }
}

/// The value of the last pair whose key is `key`.
pub open spec fn lookup(pairs: Seq<Seq<char>>, key: Seq<char>) -> Option<Seq<char>>
    decreases pairs.len(),
{
    if pairs.len() == 0 {
        None
    } else if pair_key(pairs.last()) == key {
        Some(pair_value(pairs.last()))
    } else {
        lookup(pairs.drop_last(), key)
    }
}

/// The query of a request target: what lies between its first and second
/// `?`, empty where it has no `?`.
pub open spec fn query_of(url: Seq<char>) -> Seq<char> {
    let segs = split(url, '?');
    if segs.len() > 1 {
        segs[1]
    } else {
        Seq::<char>::empty()
    }
}

/// The value of query parameter `key` of a request target, empty where the
/// parameter is absent.
pub open spec fn query_param(url: Seq<char>, key: Seq<char>) -> Seq<char> {
    match lookup(split(query_of(url), '&'), key) {
        Some(v) => v,
        None => Seq::<char>::empty(),
    }
}

proof fn lemma_first_pos(p: Seq<char>, sep: char, i: int)
    requires
        0 <= i <= p.len(),
        forall|j: int| 0 <= j < i ==> p[j] != sep,
        i == p.len() || p[i] == sep,
    ensures
        first_pos(p, sep) == i,
    decreases p.len(),
{
    if p.len() > 0 && p[0] != sep {
        assert forall|j: int| 0 <= j < i - 1 implies p.drop_first()[j] != sep by {
            assert(p[j + 1] != sep);
        }
        lemma_first_pos(p.drop_first(), sep, i - 1);
    }
}

/// Splits a pair at its first `=` into key and value.
pub fn split_pair(p: &Vec<char>) -> (r: (Vec<char>, Vec<char>))
    ensures
        r.0@ == pair_key(p@),
        r.1@ == pair_value(p@),
{
    let mut i: usize = 0;
    while i < p.len() && p[i] != '='
        invariant
            i <= p.len(),
            forall|j: int| 0 <= j < i ==> p@[j] != '=',
        decreases p.len() - i,
    {
        i = i + 1;
    }
    proof {
        lemma_first_pos(p@, '=', i as int);
    }
    let mut key: Vec<char> = Vec::new();
    let mut k: usize = 0;
    while k < i
        invariant
            i <= p.len(),
            k <= i,
            key@ == p@.subrange(0, k as int),
        decreases i - k,
    {
        key.push(p[k]);
        k = k + 1;
        proof {
            assert(key@ =~= p@.subrange(0, k as int));
        }
    }
    let mut value: Vec<char> = Vec::new();
    if i < p.len() {
        let mut k: usize = i + 1;
        while k < p.len()
            invariant
                i < p.len(),
                i + 1 <= k <= p.len(),
                value@ == p@.subrange(i + 1, k as int),
            decreases p.len() - k,
        {
            value.push(p[k]);
            k = k + 1;
            proof {
                assert(value@ =~= p@.subrange(i + 1, k as int));
            }
        }
    }
    proof {
        assert(value@ =~= pair_value(p@));
    }
    (key, value)
}

/// The value of the last pair whose key is `key`.
pub fn lookup_pairs(pairs: &Vec<Vec<char>>, key: &Vec<char>) -> (r: Option<Vec<char>>)
    ensures
        match r {
            Some(v) => lookup(views(pairs@), key@) == Some(v@),
            None => lookup(views(pairs@), key@) is None,
        },
{
    let mut found: Option<Vec<char>> = None;
    let mut i: usize = 0;
    while i < pairs.len()
        invariant
            i <= pairs.len(),
            match found {
                Some(v) => lookup(views(pairs@).subrange(0, i as int), key@) == Some(v@),
                None => lookup(views(pairs@).subrange(0, i as int), key@) is None,
            },
        decreases pairs.len() - i,
    {
        let (k, v) = split_pair(&pairs[i]);
        proof {
            let s = views(pairs@).subrange(0, i + 1);
            assert(s.drop_last() =~= views(pairs@).subrange(0, i as int));
            assert(s.last() == pairs@[i as int]@);
        }
        if crate::text::chars_equal(&k, key) {
            found = Some(v);
        }
        i = i + 1;
    }
    proof {
        assert(views(pairs@).subrange(0, pairs.len() as int) =~= views(pairs@));
    }
    found
}

/// The value of query parameter `key` of a request target, empty where the
/// parameter is absent.
pub fn get_query_param(url: &Vec<char>, key: &Vec<char>) -> (r: Vec<char>)
    ensures
        r@ == query_param(url@, key@),
{
    let segs = split_chars(url, '?');
    let query: Vec<char> = if segs.len() > 1 {
        segs[1].clone()
    } else {
        Vec::new()
    };
    proof {
        assert(query@ == query_of(url@));
    }
    let pairs = split_chars(&query, '&');
    match lookup_pairs(&pairs, key) {
        Some(v) => v,
        None => Vec::new(),
    }
}

} // verus!
