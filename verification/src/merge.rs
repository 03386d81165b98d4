//! Merging the ids of two parameter lists: an incoming id that is already
//! taken gets a suffix until it is free, so that ids stay unique within a
//! handler. A set of ids is a list in which no id occurs twice, in the order
//! in which the ids were first met; `distinct` makes one of any list.

use vstd::prelude::*;
use vstd::string::StringExecFns;

verus! {

/// `id` with `k` times the letter `x` behind it.
pub open spec fn suffixed(id: Seq<char>, k: nat) -> Seq<char>
    decreases k,
{
    if k == 0 {
        id
    } else {
        suffixed(id, (k - 1) as nat).push('x')
    }
}

/// Whether `name` is `id`, or `id` with nothing but `x`s behind it.
pub open spec fn is_suffixed(name: Seq<char>, id: Seq<char>) -> bool {
    exists|k: nat| name == suffixed(id, k)
}

/// Whether `k` is the least number of suffix letters that makes `id` differ
/// from everything in `taken`.
pub open spec fn is_least_free(taken: Seq<Seq<char>>, id: Seq<char>, k: nat) -> bool {
    &&& !taken.contains(suffixed(id, k))
    &&& forall|j: nat| j < k ==> taken.contains(#[trigger] suffixed(id, j))
}

/// The least number of suffix letters that makes `id` differ from
/// everything in `taken`.
pub open spec fn least_free(taken: Seq<Seq<char>>, id: Seq<char>) -> nat {
    choose|k: nat| is_least_free(taken, id, k)
}

/// The name under which `id` joins `taken`: itself if it is free, else the
/// shortest of `id` + `x`, `id` + `xx`, and so on, that is.
pub open spec fn renamed(taken: Seq<Seq<char>>, id: Seq<char>) -> Seq<char> {
    suffixed(id, least_free(taken, id))
}

/// The ids after `incoming` has joined `kept`, one id after the other, each
/// under the name that is free when its turn comes.
pub open spec fn merged(kept: Seq<Seq<char>>, incoming: Seq<Seq<char>>) -> Seq<Seq<char>>
    decreases incoming.len(),
{
    if incoming.len() == 0 {
        kept
    } else {
        let before = merged(kept, incoming.drop_last());
        before.push(renamed(before, incoming.last()))
    }
}

/// The length of the longest of `ids`.
pub open spec fn longest(ids: Seq<Seq<char>>) -> nat
    decreases ids.len(),
{
    if ids.len() == 0 {
        0
    } else {
        let rest = longest(ids.drop_last());
        if ids.last().len() > rest {
            ids.last().len()
        } else {
            rest
        }
    }
}

/// None of `ids` is longer than the longest of them.
pub proof fn longest_bounds(ids: Seq<Seq<char>>, id: Seq<char>)
    requires
        ids.contains(id),
    ensures
        id.len() <= longest(ids),
    decreases ids.len(),
{
    let i = choose|i: int| 0 <= i < ids.len() && ids[i] == id;
    if i < ids.len() - 1 {
        assert(ids.drop_last()[i] == id);
        longest_bounds(ids.drop_last(), id);
    }
}

/// A suffix of `k` letters makes an id longer by `k`.
pub proof fn suffixed_len(id: Seq<char>, k: nat)
    ensures
        suffixed(id, k).len() == id.len() + k,
    decreases k,
{
    if k > 0 {
        suffixed_len(id, (k - 1) as nat);
    }
}

/// If the suffix of `bound` letters is free, some suffix is the least free
/// one.
proof fn least_free_below(taken: Seq<Seq<char>>, id: Seq<char>, bound: nat)
    requires
        !taken.contains(suffixed(id, bound)),
    ensures
        exists|k: nat| k <= bound && is_least_free(taken, id, k),
    decreases bound,
{
    if forall|j: nat| j < bound ==> taken.contains(#[trigger] suffixed(id, j)) {
        assert(is_least_free(taken, id, bound));
    } else {
        let j = choose|j: nat| j < bound && !taken.contains(#[trigger] suffixed(id, j));
        least_free_below(taken, id, j);
    }
}

/// For every id there is a suffix that is free, so `renamed` is never in
/// `taken`, and every shorter suffix of the id is.
pub proof fn least_free_exists(taken: Seq<Seq<char>>, id: Seq<char>)
    ensures
        is_least_free(taken, id, least_free(taken, id)),
{
    let bound = (longest(taken) + 1) as nat;
    suffixed_len(id, bound);
    if taken.contains(suffixed(id, bound)) {
        longest_bounds(taken, suffixed(id, bound));
    }
    least_free_below(taken, id, bound);
}

/// The least free suffix is the only one that is least and free.
pub proof fn least_free_unique(taken: Seq<Seq<char>>, id: Seq<char>, k: nat)
    requires
        is_least_free(taken, id, k),
    ensures
        k == least_free(taken, id),
{
    let l = least_free(taken, id);
    assert(is_least_free(taken, id, l));
    if k < l {
        assert(taken.contains(suffixed(id, k)));
    } else if l < k {
        assert(taken.contains(suffixed(id, l)));
    }
}

/// What a merge keeps and what it adds: everything that was there stays in
/// its place under its id; each incoming id follows, in order, under itself
/// or under itself with a suffix of `x`s; and if the ids that were there are
/// all different, so are the ids afterwards.
pub proof fn merged_ids(kept: Seq<Seq<char>>, incoming: Seq<Seq<char>>)
    ensures
        merged(kept, incoming).len() == kept.len() + incoming.len(),
        forall|i: int| 0 <= i < kept.len() ==> #[trigger] merged(kept, incoming)[i] == kept[i],
        forall|i: int|
            0 <= i < incoming.len() ==> is_suffixed(
                merged(kept, incoming)[kept.len() + i],
                #[trigger] incoming[i],
            ),
        kept.no_duplicates() ==> merged(kept, incoming).no_duplicates(),
    decreases incoming.len(),
{
    if incoming.len() > 0 {
        let shorter = incoming.drop_last();
        let before = merged(kept, shorter);
        let all = merged(kept, incoming);
        merged_ids(kept, shorter);
        least_free_exists(before, incoming.last());
        assert(all == before.push(renamed(before, incoming.last())));
        assert forall|i: int| 0 <= i < incoming.len() implies is_suffixed(
            all[kept.len() + i],
            #[trigger] incoming[i],
        ) by {
            if i < shorter.len() {
                assert(is_suffixed(before[kept.len() + i], shorter[i]));
                assert(all[kept.len() + i] == before[kept.len() + i]);
            } else {
                assert(all[kept.len() + i] == suffixed(
                    incoming[i],
                    least_free(before, incoming.last()),
                ));
            }
        }
        if kept.no_duplicates() {
            assert forall|i: int, j: int|
                0 <= i < all.len() && 0 <= j < all.len() && i != j implies all[i] != all[j] by {
                if i == all.len() - 1 {
                    assert(before[j] == all[j]);
                    assert(before.contains(all[j]));
                } else if j == all.len() - 1 {
                    assert(before[i] == all[i]);
                    assert(before.contains(all[i]));
                } else {
                    assert(before[i] != before[j]);
                }
            }
        }
    }
}

/// Whether `id` is one of `ids`.
pub fn contains(ids: &Vec<String>, id: &String) -> (b: bool)
    ensures
        b == ids.deep_view().contains(id@),
{
    let mut i: usize = 0;
    while i < ids.len()
        invariant
            i <= ids.len(),
            forall|j: int| 0 <= j < i ==> ids.deep_view()[j] != id@,
        decreases ids.len() - i,
    {
        if ids[i] == *id {
            assert(ids.deep_view()[i as int] == id@);
            return true;
        }
        i = i + 1;
    }
    false
}

/// The ids of `ids` that are not among `excluded`, in their order.
pub open spec fn without(ids: Seq<Seq<char>>, excluded: Seq<Seq<char>>) -> Seq<Seq<char>>
    decreases ids.len(),
{
    if ids.len() == 0 {
        Seq::empty()
    } else {
        let rest = without(ids.drop_last(), excluded);
        if excluded.contains(ids.last()) {
            rest
        } else {
            rest.push(ids.last())
        }
    }
}

/// An id is left exactly if it was there and is not excluded, and ids that
/// were all different still are.
pub proof fn without_keeps(ids: Seq<Seq<char>>, excluded: Seq<Seq<char>>)
    ensures
        forall|id: Seq<char>| #[trigger]
            without(ids, excluded).contains(id) <==> ids.contains(id) && !excluded.contains(id),
        ids.no_duplicates() ==> without(ids, excluded).no_duplicates(),
    decreases ids.len(),
{
    if ids.len() > 0 {
        let shorter = ids.drop_last();
        let rest = without(shorter, excluded);
        let all = without(ids, excluded);
        without_keeps(shorter, excluded);
        assert forall|id: Seq<char>| #[trigger]
            all.contains(id) <==> ids.contains(id) && !excluded.contains(id) by {
            if all.contains(id) {
                let i = choose|i: int| 0 <= i < all.len() && all[i] == id;
                if i < rest.len() {
                    assert(rest[i] == id);
                    assert(rest.contains(id));
                    let j = choose|j: int| 0 <= j < shorter.len() && shorter[j] == id;
                    assert(ids[j] == id);
                } else {
                    assert(ids[ids.len() - 1] == id);
                }
            }
            if ids.contains(id) && !excluded.contains(id) {
                let j = choose|j: int| 0 <= j < ids.len() && ids[j] == id;
                if j < shorter.len() {
                    assert(shorter[j] == id);
                    assert(shorter.contains(id));
                    assert(rest.contains(id));
                    let i = choose|i: int| 0 <= i < rest.len() && rest[i] == id;
                    assert(all[i] == id);
                } else {
                    assert(all[all.len() - 1] == id);
                }
            }
        }
        if ids.no_duplicates() {
            assert(shorter.no_duplicates());
            if !excluded.contains(ids.last()) {
                assert forall|i: int, j: int|
                    0 <= i < all.len() && 0 <= j < all.len() && i != j implies all[i] != all[j] by {
                    if i == all.len() - 1 || j == all.len() - 1 {
                        let other = if i == all.len() - 1 {
                            j
                        } else {
                            i
                        };
                        assert(rest.contains(rest[other]));
                        assert(shorter.contains(rest[other]));
                        let at = choose|at: int| 0 <= at < shorter.len() && shorter[at] == rest[other];
                        assert(ids[at] != ids[ids.len() - 1]);
                    }
                }
            }
        }
    }
}

/// The ids of `ids` that are not among `excluded`, in their order.
pub fn difference(ids: &Vec<String>, excluded: &Vec<String>) -> (r: Vec<String>)
    ensures
        r.deep_view() == without(ids.deep_view(), excluded.deep_view()),
{
    let mut out: Vec<String> = Vec::new();
    let mut i: usize = 0;
    assert(ids.deep_view().take(0) =~= Seq::empty());
    assert(out.deep_view() =~= Seq::empty());
    while i < ids.len()
        invariant
            i <= ids.len(),
            out.deep_view() == without(ids.deep_view().take(i as int), excluded.deep_view()),
        decreases ids.len() - i,
    {
        let ghost before = out.deep_view();
        proof {
            let longer = ids.deep_view().take(i + 1);
            assert(longer.drop_last() =~= ids.deep_view().take(i as int));
            assert(longer.last() == ids.deep_view()[i as int]);
        }
        if !contains(excluded, &ids[i]) {
            out.push(ids[i].clone());
            assert(out.deep_view() =~= before.push(ids.deep_view()[i as int]));
        }
        i = i + 1;
    }
    assert(ids.deep_view().take(i as int) =~= ids.deep_view());
    out
}

/// The ids of `ids`, each once, in the order in which they first occur.
pub open spec fn first_occurrences(ids: Seq<Seq<char>>) -> Seq<Seq<char>>
    decreases ids.len(),
{
    if ids.len() == 0 {
        Seq::empty()
    } else {
        let rest = first_occurrences(ids.drop_last());
        if rest.contains(ids.last()) {
            rest
        } else {
            rest.push(ids.last())
        }
    }
}

/// The first occurrences are the set of the ids: every id is among them,
/// nothing else is, and none of them occurs twice.
pub proof fn first_occurrences_are_the_set(ids: Seq<Seq<char>>)
    ensures
        first_occurrences(ids).no_duplicates(),
        forall|id: Seq<char>| #[trigger] first_occurrences(ids).contains(id) <==> ids.contains(id),
    decreases ids.len(),
{
    if ids.len() > 0 {
        let shorter = ids.drop_last();
        let rest = first_occurrences(shorter);
        let all = first_occurrences(ids);
        first_occurrences_are_the_set(shorter);
        assert forall|id: Seq<char>| #[trigger] all.contains(id) <==> ids.contains(id) by {
            if all.contains(id) {
                let i = choose|i: int| 0 <= i < all.len() && all[i] == id;
                if i < rest.len() {
                    assert(rest[i] == id);
                    assert(rest.contains(id));
                    let j = choose|j: int| 0 <= j < shorter.len() && shorter[j] == id;
                    assert(ids[j] == id);
                } else {
                    assert(ids[ids.len() - 1] == id);
                }
            }
            if ids.contains(id) {
                let j = choose|j: int| 0 <= j < ids.len() && ids[j] == id;
                if j < shorter.len() {
                    assert(shorter[j] == id);
                    assert(shorter.contains(id));
                }
                if rest.contains(id) {
                    let i = choose|i: int| 0 <= i < rest.len() && rest[i] == id;
                    assert(all[i] == id);
                } else {
                    assert(all[all.len() - 1] == id);
                }
            }
        }
        if !rest.contains(ids.last()) {
            assert forall|i: int, j: int|
                0 <= i < all.len() && 0 <= j < all.len() && i != j implies all[i] != all[j] by {
                if i == all.len() - 1 {
                    assert(rest.contains(rest[j]));
                } else if j == all.len() - 1 {
                    assert(rest.contains(rest[i]));
                }
            }
        }
    }
}

/// The ids of `ids`, each once, in the order in which they first occur: the
/// list that stands for the set of the ids.
pub fn distinct(ids: &Vec<String>) -> (r: Vec<String>)
    ensures
        r.deep_view() == first_occurrences(ids.deep_view()),
{
    let mut out: Vec<String> = Vec::new();
    let mut i: usize = 0;
    assert(ids.deep_view().take(0) =~= Seq::empty());
    assert(out.deep_view() =~= Seq::empty());
    while i < ids.len()
        invariant
            i <= ids.len(),
            out.deep_view() == first_occurrences(ids.deep_view().take(i as int)),
        decreases ids.len() - i,
    {
        let ghost before = out.deep_view();
        proof {
            let longer = ids.deep_view().take(i + 1);
            assert(longer.drop_last() =~= ids.deep_view().take(i as int));
            assert(longer.last() == ids.deep_view()[i as int]);
        }
        if !contains(&out, &ids[i]) {
            out.push(ids[i].clone());
            assert(out.deep_view() =~= before.push(ids.deep_view()[i as int]));
        }
        i = i + 1;
    }
    assert(ids.deep_view().take(i as int) =~= ids.deep_view());
    out
}

/// The name under which `id` joins `taken`: itself if it is free, else the
/// shortest of `id` + `x`, `id` + `xx`, and so on, that is.
pub fn disambiguate(taken: &Vec<String>, id: String) -> (r: String)
    ensures
        r@ == renamed(taken.deep_view(), id@),
        !taken.deep_view().contains(r@),
{
    let ghost names = taken.deep_view();
    let ghost mut k: nat = 0;
    let mut candidate = id;
    proof {
        reveal_strlit("x");
        assert("x"@ =~= seq!['x']);
    }
    while contains(taken, &candidate)
        invariant
            names == taken.deep_view(),
            "x"@ == seq!['x'],
            candidate@ == suffixed(id@, k),
            forall|j: nat| j < k ==> names.contains(#[trigger] suffixed(id@, j)),
        decreases longest(names) + 1 - candidate@.len(),
    {
        proof {
            longest_bounds(names, candidate@);
            assert(suffixed(id@, k + 1) =~= suffixed(id@, k) + seq!['x']);
            k = k + 1;
        }
        candidate.append("x");
    }
    proof {
        assert(is_least_free(names, id@, k));
        least_free_unique(names, id@, k);
    }
    candidate
}

/// Joins `incoming` to `kept`, one id after the other: an id that is already
/// taken when its turn comes gets `x`s behind it until it is free.
pub fn merge(kept: Vec<String>, incoming: &Vec<String>) -> (r: Vec<String>)
    ensures
        r.deep_view() == merged(kept.deep_view(), incoming.deep_view()),
{
    let mut out = kept;
    let mut i: usize = 0;
    assert(incoming.deep_view().take(0) =~= Seq::empty());
    while i < incoming.len()
        invariant
            i <= incoming.len(),
            out.deep_view() == merged(kept.deep_view(), incoming.deep_view().take(i as int)),
        decreases incoming.len() - i,
    {
        let ghost before = out.deep_view();
        let name = disambiguate(&out, incoming[i].clone());
        out.push(name);
        proof {
            let longer = incoming.deep_view().take(i + 1);
            assert(longer.drop_last() =~= incoming.deep_view().take(i as int));
            assert(longer.last() == incoming.deep_view()[i as int]);
            assert(out.deep_view() =~= before.push(name@));
        }
        i = i + 1;
    }
    assert(incoming.deep_view().take(i as int) =~= incoming.deep_view());
    out
}

} // verus!
