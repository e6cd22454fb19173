use vstd::prelude::*;
use vstd::string::StrSliceExecFns;

verus! {

/// Region `a` ranks before region `b` of `results`: lower latency, and on
/// equal latency the one listed first.
pub open spec fn ranks_before(results: Seq<(String, u128)>, a: int, b: int) -> bool {
    results[a].1 < results[b].1 || (results[a].1 == results[b].1 && a < b)
}

/// `order` lists every position of `results` once, by rank.
pub open spec fn is_latency_order(results: Seq<(String, u128)>, order: Seq<usize>) -> bool {
    &&& order.len() == results.len()
    &&& forall|j: int| 0 <= j < order.len() ==> order[j] < results.len()
    &&& forall|j: int, k: int|
        0 <= j < k < order.len() ==> ranks_before(results, order[j] as int, order[k] as int)
}

/// `names` are the region names of `results` taken in `order`.
pub open spec fn names_in_order(
    results: Seq<(String, u128)>,
    order: Seq<usize>,
    names: Seq<String>,
) -> bool {
    &&& is_latency_order(results, order)
    &&& names.len() == order.len()
    &&& forall|j: int| 0 <= j < order.len() ==> #[trigger] names[j]@ == results[order[j] as int].0@
}

/// Positions of `results` in order of latency, equal latencies in the order
/// they are listed.
pub fn latency_order(results: &Vec<(String, u128)>) -> (order: Vec<usize>)
    ensures
        is_latency_order(results@, order@),
{
    let mut order: Vec<usize> = Vec::new();
    let mut i: usize = 0;
    while i < results.len()
        invariant
            i <= results@.len(),
            order@.len() == i,
            forall|j: int| 0 <= j < order@.len() ==> order@[j] < i,
            forall|j: int, k: int|
                0 <= j < k < order@.len() ==> ranks_before(
                    results@,
                    order@[j] as int,
                    order@[k] as int,
                ),
        decreases results@.len() - i,
    {
        let mut pos: usize = 0;
        while pos < order.len() && results[order[pos]].1 <= results[i].1
            invariant
                i < results@.len(),
                order@.len() == i,
                pos <= order@.len(),
                forall|j: int| 0 <= j < order@.len() ==> order@[j] < i,
                forall|j: int| 0 <= j < pos ==> results@[order@[j] as int].1 <= results@[i as int].1,
            decreases order@.len() - pos,
        {
            pos = pos + 1;
        }
        proof {
            assert forall|k: int| pos <= k < order@.len() implies results@[i as int].1
                < results@[order@[k] as int].1 by {
                if k > pos {
                    assert(ranks_before(results@, order@[pos as int] as int, order@[k] as int));
                }
            }
        }
        let ghost before = order@;
        order.insert(pos, i);
        proof {
            assert forall|j: int, k: int| 0 <= j < k < order@.len() implies ranks_before(
                results@,
                order@[j] as int,
                order@[k] as int,
            ) by {
                if k < pos {
                } else if k == pos {
                    assert(order@[j] == before[j]);
                } else if j < pos {
                    assert(order@[k] == before[k - 1]);
                } else if j == pos {
                    assert(order@[k] == before[k - 1]);
                } else {
                    assert(order@[j] == before[j - 1]);
                    assert(order@[k] == before[k - 1]);
                }
            }
        }
        i = i + 1;
    }
    order
}

/// Region names ordered by ascending latency; equal latencies keep their
/// listed order.
pub fn regions_by_latency(results: &Vec<(String, u128)>) -> (r: Vec<String>)
    ensures
        r@.len() == results@.len(),
        exists|order: Seq<usize>| #[trigger] names_in_order(results@, order, r@),
{
    let order = latency_order(results);
    let mut r: Vec<String> = Vec::new();
    let mut j: usize = 0;
    while j < order.len()
        invariant
            j <= order@.len(),
            order@.len() == results@.len(),
            forall|m: int| 0 <= m < order@.len() ==> order@[m] < results@.len(),
            r@.len() == j,
            forall|m: int| 0 <= m < j ==> #[trigger] r@[m]@ == results@[order@[m] as int].0@,
        decreases order@.len() - j,
    {
        let name = results[order[j]].0.clone();
        r.push(name);
        j = j + 1;
    }
    assert(names_in_order(results@, order@, r@));
    r
}

/// The region with the lowest latency, the first listed among equals;
/// `None` when no region answered.
pub fn nearest_region(results: &Vec<(String, u128)>) -> (r: Option<String>)
    ensures
        results@.len() == 0 <==> r is None,
        r is Some ==> exists|i: int|
            {
                &&& 0 <= i < results@.len()
                &&& r->0@ == results@[i].0@
                &&& forall|j: int| 0 <= j < results@.len() ==> results@[i].1 <= #[trigger] results@[j].1
                &&& forall|j: int| 0 <= j < i ==> results@[i].1 < #[trigger] results@[j].1
            },
{
    if results.len() == 0 {
        return None;
    }
    let mut best: usize = 0;
    let mut j: usize = 1;
    while j < results.len()
        invariant
            0 <= best < j <= results@.len(),
            forall|m: int| 0 <= m < j ==> results@[best as int].1 <= #[trigger] results@[m].1,
            forall|m: int| 0 <= m < best ==> results@[best as int].1 < #[trigger] results@[m].1,
        decreases results@.len() - j,
    {
        if results[j].1 < results[best].1 {
            best = j;
        }
        j = j + 1;
    }
    Some(results[best].0.clone())
}

/// `c` has the Unicode White_Space property.
pub open spec fn is_white_space(c: char) -> bool {
    let u = c as u32;
    (0x9 <= u && u <= 0xD) || u == 0x20 || u == 0x85 || u == 0xA0 || u == 0x1680 || (0x2000 <= u
        && u <= 0x200A) || u == 0x2028 || u == 0x2029 || u == 0x202F || u == 0x205F || u == 0x3000
}

/// Number of white-space characters that `s` starts with.
pub open spec fn leading_white(s: Seq<char>) -> nat
    decreases s.len(),
{
    if s.len() > 0 && is_white_space(s[0]) {
        1 + leading_white(s.drop_first())
    } else {
        0
    }
}

/// Number of white-space characters that `s` ends with.
pub open spec fn trailing_white(s: Seq<char>) -> nat
    decreases s.len(),
{
    if s.len() > 0 && is_white_space(s.last()) {
        1 + trailing_white(s.drop_last())
    } else {
        0
    }
}

/// `s` without its leading and trailing white space.
pub open spec fn trimmed(s: Seq<char>) -> Seq<char> {
    if leading_white(s) >= s.len() {
        Seq::empty()
    } else {
        s.subrange(leading_white(s) as int, s.len() - trailing_white(s))
    }
}

/// Relies on `str::trim`: the text without the leading and trailing
/// characters that have the Unicode White_Space property.
#[verifier::external_body]
fn trim(s: &str) -> (r: &str)
    ensures
        r@ == trimmed(s@),
{
    s.trim()
}

/// Position of the first `c` of `s` at or after `from`, or the length of `s`
/// when there is none.
pub open spec fn next_index(s: Seq<char>, from: int, c: char) -> int
    decreases s.len() - from,
{
    if from < 0 || from >= s.len() {
        s.len() as int
    } else if s[from] == c {
        from
    } else {
        next_index(s, from + 1, c)
    }
}

/// The second of the parts that `c` separates in `s`, as `split(c).nth(1)`
/// gives it.
pub open spec fn second_part(s: Seq<char>, c: char) -> Option<Seq<char>> {
    let i = next_index(s, 0, c);
    if i >= s.len() {
        None
    } else {
        Some(s.subrange(i + 1, next_index(s, i + 1, c)))
    }
}

/// `p` occurs in `s` at position `i`.
pub open spec fn occurs_at(s: Seq<char>, p: Seq<char>, i: int) -> bool {
    0 <= i && i + p.len() <= s.len() && s.subrange(i, i + p.len()) == p
}

/// `p` occurs somewhere in `s`.
pub open spec fn contains_seq(s: Seq<char>, p: Seq<char>) -> bool {
    exists|i: int| occurs_at(s, p, i)
}

/// The average field of a ping summary line such as
/// `rtt min/avg/max/mdev = 23.456/56.789/90.123/12.345 ms`: the second
/// `/`-separated field of the trimmed text after the first `=`.
pub open spec fn latency_field_of(line: Seq<char>) -> Option<Seq<char>> {
    if !(contains_seq(line, "rtt"@) || contains_seq(line, "round-trip"@)) {
        None
    } else {
        match second_part(line, '=') {
            None => None,
            Some(stats) => second_part(trimmed(stats), '/'),
        }
    }
}

fn chars_of(s: &str) -> (v: Vec<char>)
    ensures
        v@ == s@,
{
    let n = s.unicode_len();
    let mut v: Vec<char> = Vec::new();
    let mut i: usize = 0;
    while i < n
        invariant
            i <= n,
            n == s@.len(),
            v@ == s@.subrange(0, i as int),
        decreases n - i,
    {
        v.push(s.get_char(i));
        i = i + 1;
    }
    assert(v@ =~= s@);
    v
}

fn find_char(v: &Vec<char>, from: usize, c: char) -> (r: usize)
    requires
        from <= v@.len(),
    ensures
        r == next_index(v@, from as int, c),
{
    let mut i = from;
    while i < v.len() && v[i] != c
        invariant
            from <= i <= v@.len(),
            next_index(v@, i as int, c) == next_index(v@, from as int, c),
        decreases v@.len() - i,
    {
        i = i + 1;
    }
    i
}

/// Whether `p` occurs in `s`.
pub fn contains_str(s: &str, p: &str) -> (r: bool)
    ensures
        r == contains_seq(s@, p@),
{
    let sv = chars_of(s);
    let pv = chars_of(p);
    if pv.len() > sv.len() {
        return false;
    }
    let last = sv.len() - pv.len();
    let mut i: usize = 0;
    loop
        invariant
            last == sv@.len() - pv@.len(),
            pv@.len() <= sv@.len(),
            sv@.len() <= usize::MAX,
            sv@ == s@,
            pv@ == p@,
            i <= last,
            forall|k: int| 0 <= k < i ==> !occurs_at(sv@, pv@, k),
        ensures
            i == last,
            forall|k: int| 0 <= k <= last ==> !occurs_at(sv@, pv@, k),
        decreases last - i,
    {
        let mut j: usize = 0;
        while j < pv.len()
            invariant_except_break
                j <= pv@.len(),
            invariant
                i <= last,
                last == sv@.len() - pv@.len(),
                pv@.len() <= sv@.len(),
                i + pv@.len() <= sv@.len(),
                sv@.len() <= usize::MAX,
                sv@ == s@,
                pv@ == p@,
                j <= pv@.len(),
                forall|m: int| 0 <= m < j ==> sv@[i + m] == pv@[m],
            ensures
                j <= pv@.len(),
                j < pv@.len() ==> sv@[i + j] != pv@[j as int],
            decreases pv@.len() - j,
        {
            let at: usize = i + j;
            if sv[at] != pv[j] {
                break;
            }
            j = j + 1;
        }
        if j == pv.len() {
            assert(sv@.subrange(i as int, i + pv@.len()) =~= pv@);
            assert(occurs_at(sv@, pv@, i as int));
            assert(contains_seq(s@, p@));
            return true;
        }
        assert(sv@.subrange(i as int, i + pv@.len())[j as int] != pv@[j as int]);
        if i == last {
            break;
        }
        i = i + 1;
    }
    assert forall|k: int| !occurs_at(sv@, pv@, k) by {
        if 0 <= k && k + pv@.len() <= sv@.len() {
            assert(k <= last);
        }
    }
    false
}

/// The second part of `s` that `c` separates, as `split(c).nth(1)`.
pub fn second_field(s: &str, c: char) -> (r: Option<&str>)
    ensures
        match r {
            Some(f) => second_part(s@, c) == Some(f@),
            None => second_part(s@, c) is None,
        },
{
    let v = chars_of(s);
    let i = find_char(&v, 0, c);
    if i >= v.len() {
        return None;
    }
    let j = find_char(&v, i + 1, c);
    proof {
        assert(i + 1 <= j <= v@.len()) by {
            lemma_next_index_bounds(v@, (i + 1) as int, c);
        }
    }
    Some(s.substring_char(i + 1, j))
}

proof fn lemma_next_index_bounds(s: Seq<char>, from: int, c: char)
    requires
        0 <= from <= s.len(),
    ensures
        from <= next_index(s, from, c) <= s.len(),
    decreases s.len() - from,
{
    if from < s.len() && s[from] != c {
        lemma_next_index_bounds(s, from + 1, c);
    }
}

/// The average-latency field of one line of ping's output, when the line is
/// its round-trip summary.
pub fn latency_field(line: &str) -> (r: Option<&str>)
    ensures
        match r {
            Some(f) => latency_field_of(line@) == Some(f@),
            None => latency_field_of(line@) is None,
        },
{
    if !(contains_str(line, "rtt") || contains_str(line, "round-trip")) {
        return None;
    }
    match second_field(line, '=') {
        None => None,
        Some(stats) => second_field(trim(stats), '/'),
    }
}

} // verus!
