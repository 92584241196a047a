use crate::reply::new_row;
use crate::table::{kept_by, key_names, TableValue};
use crate::todo::TodoRow;
use vstd::prelude::*;

verus! {

/// A list shows ids strictly falling: the newest record comes first.
pub proof fn lemma_listing_newest_first(t: TableValue)
    requires
        t.wf(),
    ensures
        forall|i: int, j: int|
            0 <= i < j < t.listing().len() ==> #[trigger] t.listing()[i].id
                > #[trigger] t.listing()[j].id,
{
}

/// After a create of a description that no row had, a list holds exactly one row
/// with it: the newest, not completed, with an id of at least 1.
pub proof fn lemma_created_row_listed_once(t: TableValue, description: Seq<char>)
    requires
        t.wf(),
        t.next_id < i64::MAX,
        forall|i: int| 0 <= i < t.rows.len() ==> (#[trigger] t.rows[i]).description != description,
    ensures
        t.inserted(description).listing().len() == t.rows.len() + 1,
        t.inserted(description).listing()[0] == new_row(t.next_id, description),
        t.inserted(description).listing()[0].id >= 1,
        !t.inserted(description).listing()[0].completed,
        forall|j: int|
            0 < j < t.inserted(description).listing().len() ==> (#[trigger] t.inserted(
                description,
            ).listing()[j]).description != description,
{
    let l = t.inserted(description).listing();
    assert forall|j: int| 0 < j < l.len() implies (#[trigger] l[j]).description != description by {
        assert(l[j] == t.rows[t.rows.len() - j]);
    }
}

/// Creating `a`, then `b`, then `c` lists them as `c`, `b`, `a`, ahead of the rows
/// that were there before.
pub proof fn lemma_creates_listed_in_reverse(
    t: TableValue,
    a: Seq<char>,
    b: Seq<char>,
    c: Seq<char>,
)
    requires
        t.wf(),
        t.next_id + 2 < i64::MAX,
    ensures
        t.inserted(a).inserted(b).inserted(c).listing() == seq![
            new_row(t.next_id + 2, c),
            new_row(t.next_id + 1, b),
            new_row(t.next_id, a),
        ] + t.listing(),
{
    let l = t.inserted(a).inserted(b).inserted(c).listing();
    let e = seq![new_row(t.next_id + 2, c), new_row(t.next_id + 1, b), new_row(t.next_id, a)]
        + t.listing();
    assert(l.len() == e.len());
    assert forall|i: int| 0 <= i < l.len() implies l[i] == e[i] by {
        if i >= 3 {
            assert(l[i] == t.rows[t.rows.len() - 1 - (i - 3)]);
        }
    }
    assert(l =~= e);
}

/// After a delete by `key`, no listed row is one that `key` names, and every row
/// it does not name is still listed.
pub proof fn lemma_deleted_row_not_listed(t: TableValue, key: Seq<char>)
    requires
        t.wf(),
    ensures
        forall|i: int|
            0 <= i < t.deleted(key).listing().len() ==> !key_names(
                key,
                (#[trigger] t.deleted(key).listing()[i]).id,
            ),
        forall|i: int|
            0 <= i < t.rows.len() && !key_names(key, (#[trigger] t.rows[i]).id) ==> t.deleted(
                key,
            ).listing().contains(t.rows[i]),
{
    broadcast use Seq::lemma_filter_pred, Seq::lemma_filter_contains;

    let kept = t.deleted(key).rows;
    let l = t.deleted(key).listing();
    assert forall|i: int| 0 <= i < l.len() implies !key_names(key, (#[trigger] l[i]).id) by {
        assert(l[i] == kept[kept.len() - 1 - i]);
        assert(kept_by(key)(kept[kept.len() - 1 - i]));
    }
    assert forall|i: int|
        0 <= i < t.rows.len() && !key_names(key, (#[trigger] t.rows[i]).id) implies l.contains(
        t.rows[i],
    ) by {
        assert(kept_by(key)(t.rows[i]));
        assert(kept.contains(t.rows[i]));
        let k = choose|k: int| 0 <= k < kept.len() && kept[k] == t.rows[i];
        assert(l[kept.len() - 1 - k] == t.rows[i]);
    }
}

proof fn lemma_filter_keeps_all(rows: Seq<TodoRow>, key: Seq<char>)
    requires
        forall|i: int| 0 <= i < rows.len() ==> !key_names(key, (#[trigger] rows[i]).id),
    ensures
        rows.filter(kept_by(key)) == rows,
    decreases rows.len(),
{
    reveal(Seq::filter);
    if rows.len() > 0 {
        let p = rows.drop_last();
        assert forall|i: int| 0 <= i < p.len() implies !key_names(key, (#[trigger] p[i]).id) by {
            assert(p[i] == rows[i]);
        }
        lemma_filter_keeps_all(p, key);
        assert(kept_by(key)(rows.last()));
        assert(p.push(rows.last()) =~= rows);
    }
}

/// A delete by a key that names no row leaves the table as it was.
pub proof fn lemma_delete_absent_keeps_table(t: TableValue, key: Seq<char>)
    requires
        forall|i: int| 0 <= i < t.rows.len() ==> !key_names(key, (#[trigger] t.rows[i]).id),
    ensures
        t.deleted(key) == t,
{
    lemma_filter_keeps_all(t.rows, key);
}

} // verus!
