use crate::todo::{rows_of, Todo, TodoRow};
use vstd::prelude::*;
use vstd::string::StrSliceExecFns;

verus! {

pub open spec fn is_digit(c: char) -> bool {
    '0' <= c && c <= '9'
}

pub open spec fn digit_value(c: char) -> int {
    c as int - '0' as int
}

/// A non-empty run of ASCII digits.
pub open spec fn is_decimal(s: Seq<char>) -> bool {
    s.len() > 0 && forall|i: int| 0 <= i < s.len() ==> is_digit(#[trigger] s[i])
}

/// The number that a run of digits writes in base ten.
pub open spec fn decimal_value(s: Seq<char>) -> int
    decreases s.len(),
{
    if s.len() == 0 {
        0
    } else {
        decimal_value(s.drop_last()) * 10 + digit_value(s.last())
    }
}

/// A delete key addresses the row whose id it writes in decimal (leading zeros allowed).
pub open spec fn key_names(key: Seq<char>, id: int) -> bool {
    is_decimal(key) && decimal_value(key) == id
}

/// The rows that a delete by `key` leaves in place.
pub open spec fn kept_by(key: Seq<char>) -> spec_fn(TodoRow) -> bool {
    |r: TodoRow| !key_names(key, r.id)
}

proof fn lemma_prefix_value(s: Seq<char>, k: int)
    requires
        forall|i: int| 0 <= i < s.len() ==> is_digit(#[trigger] s[i]),
        0 <= k <= s.len(),
    ensures
        0 <= decimal_value(s.subrange(0, k)) <= decimal_value(s),
    decreases s.len(),
{
    if s.len() > 0 {
        let p = s.drop_last();
        assert forall|i: int| 0 <= i < p.len() implies is_digit(#[trigger] p[i]) by {
            assert(p[i] == s[i]);
        }
        if k == s.len() {
            assert(s.subrange(0, k) =~= s);
            lemma_prefix_value(p, p.len() as int);
            assert(p.subrange(0, p.len() as int) =~= p);
        } else {
            lemma_prefix_value(p, k);
            assert(p.subrange(0, k) =~= s.subrange(0, k));
            lemma_prefix_value(p, p.len() as int);
            assert(p.subrange(0, p.len() as int) =~= p);
            assert(is_digit(s[s.len() - 1]));
        }
    }
}

/// Reads a delete key as a row id: `None` when it is not a run of digits or
/// writes a number past `i64::MAX`, which no row can have.
pub fn parse_key(key: &str) -> (r: Option<i64>)
    ensures
        r is Some <==> is_decimal(key@) && decimal_value(key@) <= i64::MAX,
        r is Some ==> r->Some_0 as int == decimal_value(key@),
{
    let n = key.unicode_len();
    if n == 0 {
        return None;
    }
    let mut acc: i64 = 0;
    let mut i: usize = 0;
    while i < n
        invariant
            n == key@.len(),
            0 <= i <= n,
            forall|j: int| 0 <= j < i ==> is_digit(#[trigger] key@[j]),
            acc as int == decimal_value(key@.subrange(0, i as int)),
            0 <= acc,
        decreases n - i,
    {
        let c = key.get_char(i);
        if !('0' <= c && c <= '9') {
            assert(!is_digit(key@[i as int]));
            return None;
        }
        let d: i64 = (c as u32 - '0' as u32) as i64;
        let ghost next = key@.subrange(0, i + 1);
        assert(next.drop_last() =~= key@.subrange(0, i as int));
        assert(decimal_value(next) == acc * 10 + d);
        if acc > (i64::MAX - d) / 10 {
            proof {
                assert(acc * 10 + d > i64::MAX) by (nonlinear_arith)
                    requires
                        acc > (i64::MAX - d) / 10,
                        0 <= d <= 9,
                ;
                if is_decimal(key@) {
                    lemma_prefix_value(key@, i + 1);
                }
            }
            return None;
        }
        assert(acc * 10 + d <= i64::MAX) by (nonlinear_arith)
            requires
                acc <= (i64::MAX - d) / 10,
                0 <= d <= 9,
                0 <= acc,
        ;
        acc = acc * 10 + d;
        i = i + 1;
    }
    assert(key@.subrange(0, n as int) =~= key@);
    Some(acc)
}

/// The mathematical value of the table: its rows in the order they were
/// inserted, and the id that the next insert will give.
pub ghost struct TableValue {
    pub rows: Seq<TodoRow>,
    pub next_id: int,
}

impl TableValue {
    /// Ids are positive, below the next id to give, and rise in insertion order.
    pub open spec fn wf(self) -> bool {
        &&& 1 <= self.next_id <= i64::MAX
        &&& forall|i: int| 0 <= i < self.rows.len() ==> 1 <= #[trigger] self.rows[i].id < self.next_id
        &&& forall|i: int, j: int|
            0 <= i < j < self.rows.len() ==> #[trigger] self.rows[i].id < #[trigger] self.rows[j].id
    }

    /// What a list returns: every row, newest (highest id) first.
    pub open spec fn listing(self) -> Seq<TodoRow> {
        Seq::new(self.rows.len(), |i: int| self.rows[self.rows.len() - 1 - i])
    }

    /// The table after an insert of `description`, which takes the next id and
    /// starts out not completed.
    pub open spec fn inserted(self, description: Seq<char>) -> TableValue {
        TableValue {
            rows: self.rows.push(TodoRow { id: self.next_id, description, completed: false }),
            next_id: self.next_id + 1,
        }
    }

    /// The table after a delete by `key`: every row that the key names is gone.
    pub open spec fn deleted(self, key: Seq<char>) -> TableValue {
        TableValue { rows: self.rows.filter(kept_by(key)), next_id: self.next_id }
    }
}

/// The `todo_list` table: auto-incrementing ids, with the insert, select and
/// delete statements that the service runs on it.
#[derive(Debug, Clone)]
pub struct TodoTable {
    rows: Vec<Todo>,
    next_id: i64,
}

impl View for TodoTable {
    type V = TableValue;

    closed spec fn view(&self) -> TableValue {
        TableValue { rows: rows_of(self.rows@), next_id: self.next_id as int }
    }
}

impl TodoTable {
    pub open spec fn wf(&self) -> bool {
        self@.wf()
    }

    /// An empty table whose first insert gets id 1.
    pub fn new() -> (r: TodoTable)
        ensures
            r.wf(),
            r@.rows.len() == 0,
            r@.next_id == 1,
    {
        TodoTable { rows: Vec::new(), next_id: 1 }
    }

    /// `SELECT id, description, completed FROM todo_list ORDER BY id DESC`.
    pub fn select_all(&self) -> (r: Vec<Todo>)
        requires
            self.wf(),
        ensures
            rows_of(r@) == self@.listing(),
    {
        let n = self.rows.len();
        let mut out: Vec<Todo> = Vec::new();
        let mut i: usize = n;
        while i > 0
            invariant
                n == self.rows@.len(),
                0 <= i <= n,
                out@.len() == n - i,
                forall|k: int| 0 <= k < n - i ==> (#[trigger] out@[k])@ == self.rows@[n - 1 - k]@,
            decreases i,
        {
            i = i - 1;
            let t = self.rows[i].duplicate();
            out.push(t);
        }
        assert(rows_of(out@) =~= self@.listing());
        out
    }

    /// `INSERT INTO todo_list (description, completed) VALUES (?, false)`: the new
    /// row's id, or `None` when every id has been given out and nothing changes.
    pub fn insert(&mut self, description: String) -> (r: Option<i64>)
        requires
            old(self).wf(),
        ensures
            final(self).wf(),
            old(self)@.next_id < i64::MAX ==> r == Some(old(self)@.next_id as i64) && final(self)@ == old(
                self,
            )@.inserted(description@),
            old(self)@.next_id == i64::MAX ==> r is None && final(self)@ == old(self)@,
    {
        if self.next_id == i64::MAX {
            return None;
        }
        let id = self.next_id;
        self.rows.push(Todo { id, description, completed: false });
        self.next_id = id + 1;
        assert(self@.rows =~= old(self)@.rows.push(
            TodoRow { id: id as int, description: description@, completed: false },
        ));
        Some(id)
    }

    /// `DELETE FROM todo_list WHERE id = ?`: removes the rows that `key` names and
    /// returns how many went. A key that names no row changes nothing.
    pub fn delete_where_id(&mut self, key: &str) -> (r: u64)
        requires
            old(self).wf(),
        ensures
            final(self).wf(),
            final(self)@ == old(self)@.deleted(key@),
            r == old(self)@.rows.len() - final(self)@.rows.len(),
    {
        let target = parse_key(key);
        let ghost all = self@.rows;
        let ghost keep = kept_by(key@);
        let n = self.rows.len();
        let mut kept: Vec<Todo> = Vec::new();
        let mut i: usize = 0;
        assert(all.subrange(0, 0) =~= Seq::<TodoRow>::empty());
        while i < n
            invariant
                n == all.len(),
                all == self@.rows,
                keep == kept_by(key@),
                target is Some <==> is_decimal(key@) && decimal_value(key@) <= i64::MAX,
                target is Some ==> target->Some_0 as int == decimal_value(key@),
                self.wf(),
                0 <= i <= n,
                kept@.len() <= i,
                rows_of(kept@) == all.subrange(0, i as int).filter(keep),
                forall|a: int| 0 <= a < kept@.len() ==> 1 <= #[trigger] kept@[a].id < self.next_id,
                forall|a: int, b: int|
                    0 <= a < b < kept@.len() ==> #[trigger] kept@[a].id < #[trigger] kept@[b].id,
                forall|a: int, j: int|
                    0 <= a < kept@.len() && i <= j < n ==> #[trigger] kept@[a].id < #[trigger] all[j].id,
            decreases n - i,
        {
            let ghost before = rows_of(kept@);
            assert(all.subrange(0, i + 1) =~= all.subrange(0, i as int).push(all[i as int]));
            proof {
                all.subrange(0, i as int).lemma_filter_push(all[i as int], keep);
            }
            let row = &self.rows[i];
            assert(all[i as int] == self.rows@[i as int]@);
            assert(keep(all[i as int]) == !key_names(key@, row.id as int));
            let hit = match target {
                Some(v) => row.id == v,
                None => false,
            };
            assert(hit == !keep(all[i as int]));
            if !hit {
                kept.push(row.duplicate());
                assert(rows_of(kept@) =~= before.push(all[i as int]));
            }
            i = i + 1;
        }
        assert(all.subrange(0, n as int) =~= all);
        let removed = (n - kept.len()) as u64;
        self.rows = kept;
        removed
    }
}

} // verus!
