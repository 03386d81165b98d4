//! The order of torsion parameter ids: by the number behind the leading
//! `t`, then by what follows the number, so that `t2` stands before `t10`
//! and `t123a` before `t123b`.

use vstd::prelude::*;
use vstd::string::StrSliceExecFns;

verus! {

/// Whether `c` is one of the ten decimal digits.
pub open spec fn is_digit(c: char) -> bool {
    '0' <= c && c <= '9'
}

/// The value of a decimal digit.
pub open spec fn digit_value(c: char) -> nat {
    (c as u32 - '0' as u32) as nat
}

/// Where the run of digits that starts at `from` ends: the first position
/// at or behind `from` that holds no digit, or the length of `id`.
pub open spec fn run_end(id: Seq<char>, from: int) -> int
    decreases id.len() - from,
{
    if 0 <= from < id.len() && is_digit(id[from]) {
        run_end(id, from + 1)
    } else {
        from
    }
}

/// The number that a sequence of decimal digits writes.
pub open spec fn number(digits: Seq<char>) -> nat
    decreases digits.len(),
{
    if digits.len() == 0 {
        0
    } else {
        number(digits.drop_last()) * 10 + digit_value(digits.last())
    }
}

/// Whether `id` is a `t`, then at least one digit, then anything.
pub open spec fn well_formed(id: Seq<char>) -> bool {
    id.len() >= 2 && id[0] == 't' && is_digit(id[1])
}

/// The number of a well-formed id.
pub open spec fn number_of(id: Seq<char>) -> nat {
    number(id.subrange(1, run_end(id, 1)))
}

/// What follows the number of a well-formed id.
pub open spec fn tail_of(id: Seq<char>) -> Seq<char> {
    id.subrange(run_end(id, 1), id.len() as int)
}

/// The run of digits ends within the id, behind where it starts, and holds
/// digits only.
pub proof fn run_end_bounds(id: Seq<char>, from: int)
    requires
        0 <= from <= id.len(),
    ensures
        from <= run_end(id, from) <= id.len(),
        forall|i: int| from <= i < run_end(id, from) ==> is_digit(#[trigger] id[i]),
        run_end(id, from) < id.len() ==> !is_digit(id[run_end(id, from)]),
    decreases id.len() - from,
{
    if from < id.len() && is_digit(id[from]) {
        run_end_bounds(id, from + 1);
    }
}

/// The number and the tail of `id`; `None` where `id` is not a `t`, then at
/// least one digit, then anything, or where the number is too large for 64
/// bits.
pub fn parts(id: &str) -> (r: Option<(u64, String)>)
    ensures
        r is Some <==> well_formed(id@) && number_of(id@) <= u64::MAX,
        r matches Some((n, tail)) ==> n == number_of(id@) && tail@ == tail_of(id@),
{
    let len = id.unicode_len();
    if len < 2 {
        return None;
    }
    if id.get_char(0) != 't' {
        return None;
    }
    let first = id.get_char(1);
    if !(first >= '0' && first <= '9') {
        return None;
    }
    let mut n: u64 = 0;
    let mut i: usize = 1;
    proof {
        run_end_bounds(id@, 1);
        assert(id@.subrange(1, 1) =~= Seq::empty());
    }
    while i < len
        invariant
            1 <= i <= len,
            len == id@.len(),
            well_formed(id@),
            run_end(id@, i as int) == run_end(id@, 1),
            n == number(id@.subrange(1, i as int)),
        ensures
            i == len || !is_digit(id@[i as int]),
        decreases len - i,
    {
        let c = id.get_char(i);
        if !(c >= '0' && c <= '9') {
            break;
        }
        let d = (c as u32 - '0' as u32) as u64;
        proof {
            let longer = id@.subrange(1, i + 1);
            assert(longer.drop_last() =~= id@.subrange(1, i as int));
            assert(longer.last() == c);
            assert(number(longer) == n * 10 + d);
            run_end_bounds(id@, i + 1);
            assert(run_end(id@, i as int) == run_end(id@, i + 1));
            let digits = id@.subrange(1, run_end(id@, 1));
            assert(digits.take(longer.len() as int) =~= longer);
            number_grows(longer, digits);
        }
        if n > (u64::MAX - d) / 10 {
            return None;
        }
        n = n * 10 + d;
        i = i + 1;
    }
    assert(run_end(id@, i as int) == i);
    let tail = id.substring_char(i, len);
    Some((n, tail.to_owned()))
}

/// A run of digits writes a number no smaller than any of its front parts
/// does.
pub proof fn number_grows(front: Seq<char>, digits: Seq<char>)
    requires
        front.len() <= digits.len(),
        front == digits.take(front.len() as int),
    ensures
        number(front) <= number(digits),
    decreases digits.len(),
{
    if front.len() < digits.len() {
        let shorter = digits.drop_last();
        assert(shorter.take(front.len() as int) =~= front);
        number_grows(front, shorter);
        assert(number(digits) >= number(shorter)) by (nonlinear_arith)
            requires
                number(digits) == number(shorter) * 10 + digit_value(digits.last()),
        ;
    } else {
        assert(front =~= digits);
    }
}

/// Whether `a` stands before `b` in the order of the dictionary, character
/// by character.
pub open spec fn lex_lt(a: Seq<char>, b: Seq<char>) -> bool
    decreases a.len(),
{
    if b.len() == 0 {
        false
    } else if a.len() == 0 {
        true
    } else if a[0] != b[0] {
        a[0] < b[0]
    } else {
        lex_lt(a.skip(1), b.skip(1))
    }
}

/// Of two different texts one stands before the other.
pub proof fn lex_total(a: Seq<char>, b: Seq<char>)
    requires
        a != b,
    ensures
        lex_lt(a, b) || lex_lt(b, a),
    decreases a.len(),
{
    if a.len() > 0 && b.len() > 0 && a[0] == b[0] {
        if a.skip(1) == b.skip(1) {
            assert(a =~= seq![a[0]] + a.skip(1));
            assert(b =~= seq![b[0]] + b.skip(1));
        }
        lex_total(a.skip(1), b.skip(1));
    } else if a.len() == 0 && b.len() == 0 {
        assert(a =~= b);
    }
}

/// What stands before a text that stands before a third stands before the
/// third.
pub proof fn lex_transitive(a: Seq<char>, b: Seq<char>, c: Seq<char>)
    requires
        lex_lt(a, b),
        lex_lt(b, c),
    ensures
        lex_lt(a, c),
    decreases a.len(),
{
    if a.len() > 0 && a[0] == b[0] && b[0] == c[0] {
        lex_transitive(a.skip(1), b.skip(1), c.skip(1));
    }
}

/// Whether the text `a` stands before the text `b` in the order of the
/// dictionary.
pub fn text_before(a: &str, b: &str) -> (r: bool)
    ensures
        r == lex_lt(a@, b@),
{
    let la = a.unicode_len();
    let lb = b.unicode_len();
    let mut i: usize = 0;
    assert(a@.skip(0) =~= a@);
    assert(b@.skip(0) =~= b@);
    while i < la && i < lb
        invariant
            i <= la,
            i <= lb,
            la == a@.len(),
            lb == b@.len(),
            lex_lt(a@, b@) == lex_lt(a@.skip(i as int), b@.skip(i as int)),
        decreases la - i,
    {
        let ca = a.get_char(i);
        let cb = b.get_char(i);
        if ca != cb {
            return ca < cb;
        }
        assert(a@.skip(i as int).skip(1) =~= a@.skip(i + 1));
        assert(b@.skip(i as int).skip(1) =~= b@.skip(i + 1));
        i = i + 1;
    }
    i < lb
}

/// The key by which an id is ordered: its number, then its tail.
pub type Key = (u64, Seq<char>);

/// Whether the key `a` stands before the key `b`: by number, and among
/// equal numbers by tail.
pub open spec fn key_lt(a: Key, b: Key) -> bool {
    a.0 < b.0 || (a.0 == b.0 && lex_lt(a.1, b.1))
}

/// Whether, of the ids with the given keys, the one at position `x` stands
/// before the one at position `y`: by key, and among equal keys by position.
pub open spec fn rank_lt(keys: Seq<Key>, x: int, y: int) -> bool {
    key_lt(keys[x], keys[y]) || (keys[x] == keys[y] && x < y)
}

/// Whether `order` lists positions so that each stands before all that
/// follow it.
pub open spec fn ranked(keys: Seq<Key>, order: Seq<usize>) -> bool {
    forall|a: int, b: int|
        0 <= a < b < order.len() ==> rank_lt(keys, #[trigger] order[a] as int, #[trigger] order[b] as int)
}

/// Whether `order` lists each of the positions below `n` exactly once.
pub open spec fn arranges(order: Seq<usize>, n: nat) -> bool {
    &&& order.len() == n
    &&& forall|a: int| 0 <= a < order.len() ==> #[trigger] order[a] < n
    &&& order.no_duplicates()
}

/// Of two different positions one stands before the other.
pub proof fn rank_total(keys: Seq<Key>, x: int, y: int)
    requires
        x != y,
    ensures
        rank_lt(keys, x, y) || rank_lt(keys, y, x),
{
    if keys[x] != keys[y] && keys[x].0 == keys[y].0 {
        lex_total(keys[x].1, keys[y].1);
    }
}

/// What stands before a position that stands before a third stands before
/// the third.
pub proof fn rank_transitive(keys: Seq<Key>, x: int, y: int, z: int)
    requires
        rank_lt(keys, x, y),
        rank_lt(keys, y, z),
    ensures
        rank_lt(keys, x, z),
{
    if key_lt(keys[x], keys[y]) && key_lt(keys[y], keys[z]) {
        if keys[x].0 == keys[y].0 && keys[y].0 == keys[z].0 {
            lex_transitive(keys[x].1, keys[y].1, keys[z].1);
        }
    }
}

/// Of two texts at most one stands before the other, and none stands
/// before itself.
pub proof fn lex_asymmetric(a: Seq<char>, b: Seq<char>)
    ensures
        !(lex_lt(a, b) && lex_lt(b, a)),
    decreases a.len(),
{
    if a.len() > 0 && b.len() > 0 && a[0] == b[0] {
        lex_asymmetric(a.skip(1), b.skip(1));
    }
}

/// Of two positions at most one stands before the other, and none stands
/// before itself.
pub proof fn rank_asymmetric(keys: Seq<Key>, x: int, y: int)
    ensures
        !(rank_lt(keys, x, y) && rank_lt(keys, y, x)),
{
    lex_asymmetric(keys[x].1, keys[y].1);
}

/// A list that holds each position below `n` exactly once holds every one
/// of them.
pub proof fn arranges_covers(order: Seq<usize>, n: nat, x: usize)
    requires
        arranges(order, n),
        x < n,
    ensures
        order.contains(x),
{
    let values = order.to_set();
    let all = Set::new(|v: usize| v < n);
    let ints = vstd::set_lib::set_int_range(0, n as int);
    vstd::set_lib::lemma_int_range(0, n as int);
    order.unique_seq_to_set();
    let as_int = order.map_values(|v: usize| v as int);
    assert(as_int.no_duplicates()) by {
        assert forall|i: int, j: int|
            0 <= i < as_int.len() && 0 <= j < as_int.len() && i != j implies as_int[i] != as_int[j] by {
            assert(order[i] != order[j]);
        }
    }
    as_int.unique_seq_to_set();
    assert(as_int.to_set().subset_of(ints)) by {
        assert forall|v: int| as_int.to_set().contains(v) implies ints.contains(v) by {
            let i = choose|i: int| 0 <= i < as_int.len() && as_int[i] == v;
            assert(order[i] < n);
        }
    }
    vstd::set_lib::lemma_len_subset(as_int.to_set(), ints);
    vstd::set_lib::lemma_subset_equality(as_int.to_set(), ints);
    assert(ints.contains(x as int));
    assert(as_int.to_set().contains(x as int));
    let i = choose|i: int| 0 <= i < as_int.len() && as_int[i] == x as int;
    assert(order[i] == x);
}

/// The first position at or behind `from` at which two different lists of
/// the same length differ.
proof fn first_difference(first: Seq<usize>, second: Seq<usize>, from: int) -> (i: int)
    requires
        first.len() == second.len(),
        first != second,
        0 <= from <= first.len(),
        forall|j: int| 0 <= j < from ==> first[j] == second[j],
    ensures
        from <= i < first.len(),
        first[i] != second[i],
        forall|j: int| 0 <= j < i ==> first[j] == second[j],
    decreases first.len() - from,
{
    if from == first.len() {
        assert(first =~= second);
        from
    } else if first[from] != second[from] {
        from
    } else {
        first_difference(first, second, from + 1)
    }
}

/// There is only one order: two lists that each hold every position exactly
/// once, with each position before all that follow it, are the same list.
pub proof fn ranked_order_is_unique(keys: Seq<Key>, first: Seq<usize>, second: Seq<usize>, n: nat)
    requires
        arranges(first, n),
        arranges(second, n),
        ranked(keys, first),
        ranked(keys, second),
    ensures
        first == second,
{
    if first != second {
        let i = first_difference(first, second, 0);
        let x = first[i];
        let y = second[i];
        arranges_covers(second, n, x);
        arranges_covers(first, n, y);
        let at = choose|at: int| 0 <= at < second.len() && second[at] == x;
        let to = choose|to: int| 0 <= to < first.len() && first[to] == y;
        assert(at > i) by {
            if at < i {
                assert(first[at] == second[at]);
                assert(first[at] != first[i]);
            }
        }
        assert(to > i) by {
            if to < i {
                assert(second[to] == first[to]);
                assert(second[to] != second[i]);
            }
        }
        assert(rank_lt(keys, y as int, x as int)) by {
            assert(rank_lt(keys, second[i] as int, second[at] as int));
        }
        assert(rank_lt(keys, x as int, y as int)) by {
            assert(rank_lt(keys, first[i] as int, first[to] as int));
        }
        rank_asymmetric(keys, x as int, y as int);
    }
}

/// Whether an id can be ordered: it is a `t`, then at least one digit, then
/// anything, and its number fits 64 bits.
pub open spec fn sortable(id: Seq<char>) -> bool {
    well_formed(id) && number_of(id) <= u64::MAX
}

/// The keys of a list of ids.
pub open spec fn keys_of(ids: Seq<Seq<char>>) -> Seq<Key> {
    Seq::new(ids.len(), |i: int| (number_of(ids[i]) as u64, tail_of(ids[i])))
}

/// The contents of a list of keys.
pub open spec fn key_models(keys: Seq<(u64, String)>) -> Seq<Key> {
    Seq::new(keys.len(), |i: int| (keys[i].0, keys[i].1@))
}

/// Whether the key `a` stands before the key `b`.
pub fn key_before(a: &(u64, String), b: &(u64, String)) -> (r: bool)
    ensures
        r == key_lt((a.0, a.1@), (b.0, b.1@)),
{
    a.0 < b.0 || (a.0 == b.0 && text_before(a.1.as_str(), b.1.as_str()))
}

/// The keys of the ids; `None` where one of them cannot be ordered.
pub fn keys(ids: &Vec<String>) -> (r: Option<Vec<(u64, String)>>)
    ensures
        r is Some <==> forall|i: int| 0 <= i < ids.len() ==> sortable(#[trigger] ids.deep_view()[i]),
        r matches Some(k) ==> key_models(k@) == keys_of(ids.deep_view()),
{
    let mut out: Vec<(u64, String)> = Vec::new();
    let mut i: usize = 0;
    while i < ids.len()
        invariant
            i <= ids.len(),
            out@.len() == i,
            forall|j: int| 0 <= j < i ==> sortable(#[trigger] ids.deep_view()[j]),
            forall|j: int|
                0 <= j < i ==> (#[trigger] out@[j]).0 == number_of(ids.deep_view()[j]) && out@[j].1@
                    == tail_of(ids.deep_view()[j]),
        decreases ids.len() - i,
    {
        match parts(ids[i].as_str()) {
            Some(key) => out.push(key),
            None => {
                assert(!sortable(ids.deep_view()[i as int]));
                return None;
            },
        }
        i = i + 1;
    }
    assert(key_models(out@) =~= keys_of(ids.deep_view()));
    Some(out)
}

/// The positions of the ids in their order: by number, then by tail, and
/// among ids of the same number and tail by where they stand in `ids`.
/// `None` where one of the ids cannot be ordered.
pub fn numeric_order(ids: &Vec<String>) -> (r: Option<Vec<usize>>)
    ensures
        r is Some <==> forall|i: int| 0 <= i < ids.len() ==> sortable(#[trigger] ids.deep_view()[i]),
        r matches Some(order) ==> arranges(order@, ids.len() as nat) && ranked(
            keys_of(ids.deep_view()),
            order@,
        ),
{
    let keys = match keys(ids) {
        Some(k) => k,
        None => {
            return None;
        },
    };
    let ghost model = keys_of(ids.deep_view());
    assert(key_models(keys@).len() == model.len());
    let n = keys.len();
    let mut order: Vec<usize> = Vec::new();
    let mut i: usize = 0;
    while i < n
        invariant
            i <= n,
            n == keys@.len(),
            n == ids.len(),
            model == key_models(keys@),
            model.len() == n,
            arranges(order@, i as nat),
            ranked(model, order@),
        decreases n - i,
    {
        let mut p: usize = order.len();
        while p > 0 && key_before(&keys[i], &keys[order[p - 1]])
            invariant
                p <= order@.len(),
                i < n,
                n == keys@.len(),
                model == key_models(keys@),
                arranges(order@, i as nat),
                forall|q: int| p <= q < order@.len() ==> rank_lt(model, i as int, #[trigger] order@[q] as int),
            decreases p,
        {
            p = p - 1;
        }
        let ghost before = order@;
        order.insert(p, i);
        proof {
            let after = order@;
            assert(after == before.insert(p as int, i));
            assert forall|a: int| 0 <= a < after.len() implies #[trigger] after[a] < i + 1 by {
                if a < p {
                    assert(after[a] == before[a]);
                } else if a > p {
                    assert(after[a] == before[a - 1]);
                }
            }
            assert forall|a: int, b: int|
                0 <= a < after.len() && 0 <= b < after.len() && a != b implies after[a] != after[b] by {
                let x = if a < p {
                    a
                } else {
                    a - 1
                };
                let y = if b < p {
                    b
                } else {
                    b - 1
                };
                if a != p && b != p {
                    assert(after[a] == before[x] && after[b] == before[y]);
                } else if a == p {
                    assert(after[b] == before[y]);
                } else {
                    assert(after[a] == before[x]);
                }
            }
            assert forall|a: int, b: int| 0 <= a < b < after.len() implies rank_lt(
                model,
                #[trigger] after[a] as int,
                #[trigger] after[b] as int,
            ) by {
                if b < p {
                    assert(after[a] == before[a] && after[b] == before[b]);
                } else if a > p {
                    assert(after[a] == before[a - 1] && after[b] == before[b - 1]);
                } else if a == p {
                    assert(after[b] == before[b - 1]);
                } else if b == p {
                    assert(after[a] == before[a]);
                    assert(before[p - 1] < i);
                    rank_total(model, before[p - 1] as int, i as int);
                    if a < p - 1 {
                        rank_transitive(model, before[a] as int, before[p - 1] as int, i as int);
                    }
                } else {
                    assert(after[a] == before[a] && after[b] == before[b - 1]);
                }
            }
        }
        i = i + 1;
    }
    Some(order)
}

} // verus!
