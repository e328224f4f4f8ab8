//! Lists of texts in dictionary order, each text once.
use crate::text;
use crate::text::to_chars;
use vstd::prelude::*;
use vstd::string::*;

verus! {

/// Whether one text comes before another in dictionary order.
pub open spec fn precedes(a: Seq<char>, b: Seq<char>) -> bool
    decreases a.len(),
{
    if b.len() == 0 {
        false
    } else if a.len() == 0 {
        true
    } else if a[0] != b[0] {
        a[0] < b[0]
    } else {
        precedes(a.drop_first(), b.drop_first())
    }
}

/// Dictionary order is total: of two different texts one comes first.
pub proof fn law_order_is_total(a: Seq<char>, b: Seq<char>)
    ensures
        a == b || precedes(a, b) || precedes(b, a),
        !(precedes(a, b) && precedes(b, a)),
        !precedes(a, a),
    decreases a.len(),
{
    if a.len() > 0 {
        law_order_is_total(a.drop_first(), a.drop_first());
    }
    if a.len() > 0 && b.len() > 0 {
        law_order_is_total(a.drop_first(), b.drop_first());
        if a[0] == b[0] && a.drop_first() == b.drop_first() {
            assert(a =~= seq![a[0]] + a.drop_first());
            assert(b =~= seq![b[0]] + b.drop_first());
        }
    } else if a.len() == 0 && b.len() == 0 {
        assert(a =~= b);
    }
}

/// Dictionary order is transitive.
pub proof fn law_order_is_transitive(a: Seq<char>, b: Seq<char>, c: Seq<char>)
    requires
        precedes(a, b),
        precedes(b, c),
    ensures
        precedes(a, c),
    decreases a.len(),
{
    if a.len() > 0 && a[0] == b[0] && b[0] == c[0] {
        law_order_is_transitive(a.drop_first(), b.drop_first(), c.drop_first());
    }
}

/// Whether one text comes before another in dictionary order.
pub fn comes_before(a: &str, b: &str) -> (before: bool)
    ensures
        before == precedes(a@, b@),
{
    let left = to_chars(a);
    let right = to_chars(b);
    let mut i: usize = 0;
    proof {
        assert(a@.skip(0) == a@);
        assert(b@.skip(0) == b@);
    }
    while i < left.len() && i < right.len()
        invariant
            i <= left@.len(),
            i <= right@.len(),
            left@ == a@,
            right@ == b@,
            precedes(a@, b@) == precedes(a@.skip(i as int), b@.skip(i as int)),
        decreases left@.len() - i,
    {
        proof {
            assert(a@.skip(i as int).drop_first() == a@.skip(i + 1));
            assert(b@.skip(i as int).drop_first() == b@.skip(i + 1));
        }
        if left[i] != right[i] {
            return left[i] < right[i];
        }
        i = i + 1;
    }
    i < right.len()
}

/// Whether a list is in dictionary order and holds each text once.
pub open spec fn ordered(list: Seq<Seq<char>>) -> bool {
    forall|i: int, j: int|
        #![trigger list[i], list[j]]
        0 <= i < j < list.len() ==> precedes(list[i], list[j])
}

/// A text put into an ordered list behind the texts before it and in front of
/// those after it keeps the list in order.
pub proof fn lemma_insert_in_order(before: Seq<Seq<char>>, at: int, name: Seq<char>)
    requires
        ordered(before),
        0 <= at <= before.len(),
        forall|k: int| 0 <= k < at ==> precedes(#[trigger] before[k], name),
        at < before.len() ==> precedes(name, before[at]),
    ensures
        ordered(before.insert(at, name)),
        forall|t: Seq<char>|
            #[trigger] before.insert(at, name).contains(t) <==> before.contains(t) || t == name,
{
    let after = before.insert(at, name);
    assert forall|a: int, b: int|
        #![trigger after[a], after[b]]
        0 <= a < b < after.len() implies precedes(after[a], after[b]) by {
        let x = if a < at {
            a
        } else {
            a - 1
        };
        let y = if b < at {
            b
        } else {
            b - 1
        };
        if a == at {
            assert(after[b] == before[y]);
            if y > at {
                assert(precedes(before[at], before[y]));
                law_order_is_transitive(name, before[at], before[y]);
            }
        } else if b == at {
            assert(after[a] == before[x]);
        } else {
            assert(after[a] == before[x]);
            assert(after[b] == before[y]);
        }
    }
    assert forall|t: Seq<char>| #[trigger] after.contains(t) <==> before.contains(t) || t
        == name by {
        if before.contains(t) {
            let k = choose|k: int| 0 <= k < before.len() && before[k] == t;
            if k < at {
                assert(after[k] == t);
            } else {
                assert(after[k + 1] == t);
            }
        }
        assert(after[at] == name);
        if after.contains(t) && t != name {
            let k = choose|k: int| 0 <= k < after.len() && after[k] == t;
            if k < at {
                assert(before[k] == t);
            } else {
                assert(before[k - 1] == t);
            }
        }
    }
}

/// Puts a text into an ordered list, unless it is there already.
pub fn insert_ordered(list: &mut Vec<String>, item: String)
    requires
        ordered(text::texts(old(list)@)),
    ensures
        ordered(text::texts(final(list)@)),
        forall|t: Seq<char>|
            #[trigger] text::texts(final(list)@).contains(t) <==> text::texts(old(list)@).contains(t)
                || t == item@,
{
    let ghost before = text::texts(list@);
    let mut i: usize = 0;
    while i < list.len() && comes_before(list[i].as_str(), item.as_str())
        invariant
            i <= list@.len(),
            text::texts(list@) == before,
            forall|k: int| 0 <= k < i ==> precedes(#[trigger] before[k], item@),
        decreases list@.len() - i,
    {
        i = i + 1;
    }
    if i < list.len() && crate::text::str_eq(list[i].as_str(), item.as_str()) {
        proof {
            assert(before[i as int] == item@);
            assert forall|t: Seq<char>| #[trigger] before.contains(t) <==> before.contains(t) || t
                == item@ by {}
        }
        return ;
    }
    let ghost name = item@;
    proof {
        if i < list@.len() {
            law_order_is_total(before[i as int], name);
        }
    }
    list.insert(i, item);
    proof {
        assert(text::texts(list@) =~= before.insert(i as int, name));
        lemma_insert_in_order(before, i as int, name);
    }
}

/// An ordered list is fixed by the texts that it holds.
pub proof fn law_ordered_list_is_unique(a: Seq<Seq<char>>, b: Seq<Seq<char>>)
    requires
        ordered(a),
        ordered(b),
        forall|t: Seq<char>| #[trigger] a.contains(t) <==> b.contains(t),
    ensures
        a == b,
    decreases a.len(),
{
    if a.len() == 0 {
        if b.len() > 0 {
            assert(b.contains(b[0]));
            assert(a.contains(b[0]));
        }
        assert(a =~= b);
    } else {
        assert(a.contains(a[a.len() - 1]));
        assert(b.contains(a.last()));
        let at = choose|k: int| 0 <= k < b.len() && b[k] == a.last();
        assert(b.contains(b[b.len() - 1]));
        assert(a.contains(b.last()));
        let back = choose|k: int| 0 <= k < a.len() && a[k] == b.last();
        if at < b.len() - 1 {
            assert(precedes(b[at], b[b.len() - 1]));
            if back < a.len() - 1 {
                assert(precedes(a[back], a[a.len() - 1]));
            }
            law_order_is_total(a.last(), b.last());
        }
        assert(a.last() == b.last());
        let x = a.drop_last();
        let y = b.drop_last();
        assert forall|t: Seq<char>| #[trigger] x.contains(t) <==> y.contains(t) by {
            if x.contains(t) {
                let k = choose|k: int| 0 <= k < x.len() && x[k] == t;
                assert(precedes(a[k], a[a.len() - 1]));
                law_order_is_total(t, a.last());
                assert(a.contains(a[k]));
                let m = choose|m: int| 0 <= m < b.len() && b[m] == t;
                assert(y[m] == t);
            }
            if y.contains(t) {
                let k = choose|k: int| 0 <= k < y.len() && y[k] == t;
                assert(precedes(b[k], b[b.len() - 1]));
                law_order_is_total(t, b.last());
                assert(b.contains(b[k]));
                assert(a.contains(t));
                let m = choose|m: int| 0 <= m < a.len() && a[m] == t;
                assert(x[m] == t);
            }
        }
        assert forall|i: int, j: int|
            #![trigger x[i], x[j]]
            0 <= i < j < x.len() implies precedes(x[i], x[j]) by {
            assert(x[i] == a[i] && x[j] == a[j]);
        }
        assert forall|i: int, j: int|
            #![trigger y[i], y[j]]
            0 <= i < j < y.len() implies precedes(y[i], y[j]) by {
            assert(y[i] == b[i] && y[j] == b[j]);
        }
        law_ordered_list_is_unique(x, y);
        assert(a =~= x.push(a.last()));
        assert(b =~= y.push(b.last()));
    }
}

} // verus!
