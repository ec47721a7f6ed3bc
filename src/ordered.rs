use vstd::prelude::*;
use crate::command::texts;

verus! {

/// Strict lexicographic order on texts, character by character by code point (the
/// order of `str`'s `Ord`, since UTF-8 keeps code-point order).
pub open spec fn text_lt(a: Seq<char>, b: Seq<char>) -> bool
    decreases a.len(),
{
    if b.len() == 0 {
        false
    } else if a.len() == 0 {
        true
    } else if a[0] != b[0] {
        a[0] < b[0]
    } else {
        text_lt(a.drop_first(), b.drop_first())
    }
}

/// Every text before every later one: ascending, each text once.
pub open spec fn strictly_ascending(s: Seq<Seq<char>>) -> bool {
    forall|i: int, j: int| 0 <= i < j < s.len() ==> text_lt(#[trigger] s[i], #[trigger] s[j])
}

proof fn lemma_text_lt_irreflexive(a: Seq<char>)
    ensures
        !text_lt(a, a),
    decreases a.len(),
{
    if a.len() > 0 {
        lemma_text_lt_irreflexive(a.drop_first());
    }
}

proof fn lemma_text_lt_transitive(a: Seq<char>, b: Seq<char>, c: Seq<char>)
    requires
        text_lt(a, b),
        text_lt(b, c),
    ensures
        text_lt(a, c),
    decreases a.len(),
{
    if a.len() > 0 && b.len() > 0 && c.len() > 0 && a[0] == b[0] && b[0] == c[0] {
        lemma_text_lt_transitive(a.drop_first(), b.drop_first(), c.drop_first());
    }
}

proof fn lemma_text_lt_total(a: Seq<char>, b: Seq<char>)
    requires
        a != b,
    ensures
        text_lt(a, b) || text_lt(b, a),
    decreases a.len(),
{
    if a.len() > 0 && b.len() > 0 && a[0] == b[0] {
        if a.drop_first() == b.drop_first() {
            assert(a =~= seq![a[0]] + a.drop_first());
            assert(b =~= seq![b[0]] + b.drop_first());
        }
        lemma_text_lt_total(a.drop_first(), b.drop_first());
    } else if a.len() > 0 && b.len() > 0 {
    } else if a.len() == 0 && b.len() == 0 {
        assert(a =~= b);
    }
}

/// Whether `a` comes strictly before `b`.
pub fn text_less(a: &str, b: &str) -> (r: bool)
    ensures
        r == text_lt(a@, b@),
{
    let n = a.unicode_len();
    let m = b.unicode_len();
    let mut i: usize = 0;
    assert(a@.subrange(0, n as int) =~= a@);
    assert(b@.subrange(0, m as int) =~= b@);
    while i < n && i < m && a.get_char(i) == b.get_char(i)
        invariant
            n == a@.len(),
            m == b@.len(),
            i <= n,
            i <= m,
            text_lt(a@, b@) == text_lt(a@.subrange(i as int, n as int), b@.subrange(i as int, m as int)),
        decreases n - i,
    {
        proof {
            let x = a@.subrange(i as int, n as int);
            let y = b@.subrange(i as int, m as int);
            assert(x.drop_first() =~= a@.subrange(i + 1, n as int));
            assert(y.drop_first() =~= b@.subrange(i + 1, m as int));
        }
        i = i + 1;
    }
    if i == m {
        false
    } else if i == n {
        true
    } else {
        a.get_char(i) < b.get_char(i)
    }
}

/// Adds `item` to an ascending list of distinct texts, keeping it so.
pub fn insert_ascending(list: &mut Vec<String>, item: &String)
    requires
        strictly_ascending(texts(old(list)@)),
    ensures
        strictly_ascending(texts(final(list)@)),
        texts(final(list)@).to_set() == texts(old(list)@).to_set().insert(item@),
{
    let ghost before = texts(list@);
    let mut i: usize = 0;
    while i < list.len() && text_less(list[i].as_str(), item.as_str())
        invariant
            before == texts(list@),
            i <= list.len(),
            forall|k: int| 0 <= k < i ==> text_lt(#[trigger] before[k], item@),
        decreases list.len() - i,
    {
        i = i + 1;
    }
    if i < list.len() && list[i] == *item {
        assert(before.to_set().insert(item@) =~= before.to_set()) by {
            assert(before.contains(item@)) by {
                assert(before[i as int] == item@);
            }
        }
        return;
    }
    proof {
        if i < list.len() {
            lemma_text_lt_total(before[i as int], item@);
        }
    }
    list.insert(i, item.clone());
    let ghost after = texts(list@);
    assert(after =~= before.insert(i as int, item@));
    assert forall|a: int, b: int| 0 <= a < b < after.len() implies text_lt(
        #[trigger] after[a],
        #[trigger] after[b],
    ) by {
        if b < i {
        } else if b == i {
        } else if a < i {
            assert(after[b] == before[b - 1]);
            lemma_text_lt_transitive(after[a], item@, before[i as int]);
            if b - 1 > i {
                lemma_text_lt_transitive(after[a], before[i as int], before[b - 1]);
            }
        } else if a == i {
            if b - 1 > i {
                lemma_text_lt_transitive(item@, before[i as int], before[b - 1]);
            }
        } else {
            assert(after[a] == before[a - 1]);
            assert(after[b] == before[b - 1]);
        }
    }
    assert(after.to_set() =~= before.to_set().insert(item@)) by {
        assert forall|x: Seq<char>| after.to_set().contains(x) implies before.to_set().insert(
            item@,
        ).contains(x) by {
            let k = choose|k: int| 0 <= k < after.len() && after[k] == x;
            if k < i {
                assert(before[k] == x);
            } else if k > i {
                assert(before[k - 1] == x);
            }
        }
        assert forall|x: Seq<char>| before.to_set().insert(item@).contains(x) implies after.to_set().contains(
            x,
        ) by {
            if x == item@ {
                assert(after[i as int] == x);
            } else {
                let k = choose|k: int| 0 <= k < before.len() && before[k] == x;
                if k < i {
                    assert(after[k] == x);
                } else {
                    assert(after[k + 1] == x);
                }
            }
        }
    }
}

proof fn lemma_push_to_set(s: Seq<Seq<char>>, v: Seq<char>)
    ensures
        s.push(v).to_set() == s.to_set().insert(v),
{
    assert forall|x: Seq<char>| s.push(v).to_set().contains(x) implies s.to_set().insert(v).contains(x) by {
        let k = choose|k: int| 0 <= k < s.push(v).len() && s.push(v)[k] == x;
        if k < s.len() {
            assert(s[k] == x);
        }
    }
    assert forall|x: Seq<char>| s.to_set().insert(v).contains(x) implies s.push(v).to_set().contains(x) by {
        if x == v {
            assert(s.push(v)[s.len() as int] == x);
        } else {
            let k = choose|k: int| 0 <= k < s.len() && s[k] == x;
            assert(s.push(v)[k] == x);
        }
    }
    assert(s.push(v).to_set() =~= s.to_set().insert(v));
}

/// Adds every item to an ascending list of distinct texts, keeping it so.
pub fn merge_ascending(list: &mut Vec<String>, items: &Vec<String>)
    requires
        strictly_ascending(texts(old(list)@)),
    ensures
        strictly_ascending(texts(final(list)@)),
        texts(final(list)@).to_set() == texts(old(list)@).to_set() + texts(items@).to_set(),
{
    let ghost start = texts(list@).to_set();
    let mut i: usize = 0;
    while i < items.len()
        invariant
            i <= items.len(),
            strictly_ascending(texts(list@)),
            texts(list@).to_set() == start + texts(items@.take(i as int)).to_set(),
        decreases items.len() - i,
    {
        insert_ascending(list, &items[i]);
        proof {
            assert(texts(items@.take(i + 1)) =~= texts(items@.take(i as int)).push(items@[i as int]@));
            lemma_push_to_set(texts(items@.take(i as int)), items@[i as int]@);
        }
        i = i + 1;
        assert(texts(list@).to_set() =~= start + texts(items@.take(i as int)).to_set());
    }
    assert(items@.take(i as int) =~= items@);
}

} // verus!
