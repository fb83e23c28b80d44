//! The strict partial order on records: a record is greater than another when
//! none of its fields is smaller and at least one is greater.

use crate::seqs::{item, lemma_prefix_ends, lemma_prefix_step, prefix};
use core::cmp::Ordering;
use vstd::prelude::*;

verus! {

/// Every field could be compared with its counterpart.
pub open spec fn all_comparable(fields: Seq<Option<Ordering>>) -> bool {
    forall|i: int| 0 <= i < fields.len() ==> fields[i] is Some
}

/// At least one field compares as `o`.
pub open spec fn some_field_is(fields: Seq<Option<Ordering>>, o: Ordering) -> bool {
    exists|i: int| 0 <= i < fields.len() && fields[i] == Some(o)
}

/// The strict order of two records, from the orders of their fields taken pairwise.
pub open spec fn strict_order(fields: Seq<Option<Ordering>>) -> Option<Ordering> {
    if !all_comparable(fields) {
        None
    } else if some_field_is(fields, Ordering::Less) && some_field_is(fields, Ordering::Greater) {
        None
    } else if some_field_is(fields, Ordering::Greater) {
        Some(Ordering::Greater)
    } else if some_field_is(fields, Ordering::Less) {
        Some(Ordering::Less)
    } else {
        Some(Ordering::Equal)
    }
}

/// Folds one more field into the order found so far.
pub open spec fn combine(acc: Option<Ordering>, field: Option<Ordering>) -> Option<Ordering> {
    match (acc, field) {
        (Some(Ordering::Equal), Some(x)) => Some(x),
        (Some(a), Some(Ordering::Equal)) => Some(a),
        (Some(Ordering::Less), Some(Ordering::Less)) => Some(Ordering::Less),
        (Some(Ordering::Greater), Some(Ordering::Greater)) => Some(Ordering::Greater),
        _ => None,
    }
}

/// Adding a field to a record changes its strict order by `combine`.
pub proof fn lemma_strict_order_push(fields: Seq<Option<Ordering>>, field: Option<Ordering>)
    ensures
        strict_order(fields.push(field)) == combine(strict_order(fields), field),
{
    let ext = fields.push(field);
    assert(ext.last() == field);
    assert forall|i: int| 0 <= i < fields.len() implies ext[i] == fields[i] by {}
    assert(forall|o: Ordering|
        some_field_is(ext, o) <==> (some_field_is(fields, o) || field == Some(o))) by {
        assert forall|o: Ordering| some_field_is(fields, o) implies some_field_is(ext, o) by {
            let i = choose|i: int| 0 <= i < fields.len() && fields[i] == Some(o);
            assert(ext[i] == Some(o));
        }
        assert forall|o: Ordering| field == Some(o) implies some_field_is(ext, o) by {
            assert(ext[ext.len() - 1] == Some(o));
        }
        assert forall|o: Ordering| some_field_is(ext, o) implies (some_field_is(fields, o) || field
            == Some(o)) by {
            let i = choose|i: int| 0 <= i < ext.len() && ext[i] == Some(o);
            if i < fields.len() {
                assert(fields[i] == Some(o));
            }
        }
    }
    assert(all_comparable(ext) <==> (all_comparable(fields) && field is Some)) by {
        if all_comparable(ext) {
            assert(ext[ext.len() - 1] is Some);
            assert forall|i: int| 0 <= i < fields.len() implies fields[i] is Some by {
                assert(ext[i] is Some);
            }
        }
    }
    if all_comparable(fields) {
        // every field is one of the three orders, so a record without a
        // smaller or greater field is made of equal fields only
        match field {
            Some(Ordering::Less) => {},
            Some(Ordering::Equal) => {},
            Some(Ordering::Greater) => {},
            None => {},
        }
    }
}

/// The strict order of two records whose fields compare, one by one and in the
/// order of declaration, as `fields` says.
pub fn strict_partial_ord(fields: &[Option<Ordering>]) -> (r: Option<Ordering>)
    ensures
        r == strict_order(fields@),
        r == Some(Ordering::Greater) <==> (forall|i: int|
            0 <= i < fields@.len() ==> (fields@[i] == Some(Ordering::Greater) || fields@[i] == Some(
                Ordering::Equal,
            ))) && some_field_is(fields@, Ordering::Greater),
        r == Some(Ordering::Less) <==> (forall|i: int|
            0 <= i < fields@.len() ==> (fields@[i] == Some(Ordering::Less) || fields@[i] == Some(
                Ordering::Equal,
            ))) && some_field_is(fields@, Ordering::Less),
        r == Some(Ordering::Equal) <==> (forall|i: int|
            0 <= i < fields@.len() ==> fields@[i] == Some(Ordering::Equal)),
        some_field_is(fields@, Ordering::Less) && some_field_is(fields@, Ordering::Greater) ==> r
            is None,
        !all_comparable(fields@) ==> r is None,
{
    let mut acc: Option<Ordering> = Some(Ordering::Equal);
    let mut i: usize = 0;
    proof {
        lemma_prefix_ends(fields@);
    }
    while i < fields.len()
        invariant
            i <= fields.len(),
            acc == strict_order(prefix(fields@, i)),
        decreases fields.len() - i,
    {
        proof {
            lemma_strict_order_push(prefix(fields@, i), item(fields@, i));
            lemma_prefix_step(fields@, i);
        }
        acc =
        match (acc, fields[i]) {
            (Some(Ordering::Equal), Some(x)) => Some(x),
            (Some(a), Some(Ordering::Equal)) => Some(a),
            (Some(Ordering::Less), Some(Ordering::Less)) => Some(Ordering::Less),
            (Some(Ordering::Greater), Some(Ordering::Greater)) => Some(Ordering::Greater),
            _ => None,
        };
        i += 1;
    }
    proof {
        lemma_prefix_ends(fields@);
        lemma_strict_order_cases(fields@);
    }
    acc
}

/// What `strict_order` says in terms of the single fields.
pub proof fn lemma_strict_order_cases(fields: Seq<Option<Ordering>>)
    ensures
        strict_order(fields) == Some(Ordering::Greater) <==> (forall|i: int|
            0 <= i < fields.len() ==> (fields[i] == Some(Ordering::Greater) || fields[i] == Some(
                Ordering::Equal,
            ))) && some_field_is(fields, Ordering::Greater),
        strict_order(fields) == Some(Ordering::Less) <==> (forall|i: int|
            0 <= i < fields.len() ==> (fields[i] == Some(Ordering::Less) || fields[i] == Some(
                Ordering::Equal,
            ))) && some_field_is(fields, Ordering::Less),
        strict_order(fields) == Some(Ordering::Equal) <==> (forall|i: int|
            0 <= i < fields.len() ==> fields[i] == Some(Ordering::Equal)),
        some_field_is(fields, Ordering::Less) && some_field_is(fields, Ordering::Greater)
            ==> strict_order(fields) is None,
        !all_comparable(fields) ==> strict_order(fields) is None,
{
    assert forall|i: int| 0 <= i < fields.len() && all_comparable(fields) implies (fields[i]
        == Some(Ordering::Less) || fields[i] == Some(Ordering::Equal) || fields[i] == Some(
        Ordering::Greater,
    )) by {
        match fields[i] {
            Some(Ordering::Less) => {},
            Some(Ordering::Equal) => {},
            Some(Ordering::Greater) => {},
            None => {},
        }
    }
}

} // verus!
