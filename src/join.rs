use vstd::prelude::*;
use crate::dbc_tables::{SpellCategoryDbcRow, SpellIconDbcRow, SpellVisualDbcRow, TalentDbcRow, TalentTabRow};
use crate::dbc::{all_records_ok, column_value, record_count, record_view, header_ok, DbcRowMapper, HEADER_SIZE};
use crate::error::DecodeError;

verus! {

/// A row with a primary id.
pub trait HasId {
    /// The row's id.
    spec fn spec_id(&self) -> u32;

    /// The row's id.
    fn id(&self) -> (r: u32)
        ensures
            r == self.spec_id(),
    ;
}

/// The ids of a sequence of rows.
pub open spec fn ids_of<T: HasId>(rows: Seq<T>) -> Seq<u32> {
    Seq::new(rows.len(), |i: int| rows[i].spec_id())
}

/// No two entries are equal.
pub open spec fn all_distinct(s: Seq<u32>) -> bool {
    forall|i: int, j: int| 0 <= i < j < s.len() ==> s[i] != s[j]
}

/// The record file `b` decodes as a table of `T`: its length agrees with its header and
/// every record decodes.
pub open spec fn dbc_decodes<T: DbcRowMapper>(b: Seq<u8>) -> bool {
    header_ok(b) && all_records_ok::<T>(b)
}

/// The ids (first column) of the records of the file `b`.
pub open spec fn record_ids(b: Seq<u8>) -> Seq<u32> {
    Seq::new(record_count(b) as nat, |k: int| column_value(record_view(b, k), 1))
}

/// The index of the first record from `i` on whose id is `id`.
pub open spec fn find_id_from(ids: Seq<u32>, id: u32, i: int) -> Option<int>
    decreases ids.len() - i,
{
    if i < 0 || i >= ids.len() {
        None
    } else if ids[i] == id {
        Some(i)
    } else {
        find_id_from(ids, id, i + 1)
    }
}

/// Rows looked up by their primary id; no two rows share an id.
#[derive(Debug)]
pub struct ById<T> {
    rows: Vec<T>,
}

impl<T: HasId> ById<T> {
    /// The rows, in the order they were given.
    pub closed spec fn rows(&self) -> Seq<T> {
        self.rows@
    }

    /// No two rows share an id.
    pub open spec fn wf(&self) -> bool {
        all_distinct(ids_of(self.rows()))
    }

    /// The row with id `id`, if there is one.
    pub fn get(&self, id: u32) -> (r: Option<&T>)
        requires
            self.wf(),
        ensures
            r matches Some(row) ==> exists|i: int|
                0 <= i < self.rows().len() && self.rows()[i] == *row && row.spec_id() == id,
            r is None ==> !ids_of(self.rows()).contains(id),
            r is Some ==> ids_of(self.rows()).contains(id),
    {
        let mut i: usize = 0;
        while i < self.rows.len()
            invariant
                i <= self.rows@.len(),
                forall|k: int| 0 <= k < i ==> self.rows@[k].spec_id() != id,
            decreases self.rows@.len() - i,
        {
            if self.rows[i].id() == id {
                assert(self.rows()[i as int] == self.rows@[i as int]);
                assert(ids_of(self.rows())[i as int] == id);
                return Some(&self.rows[i]);
            }
            i = i + 1;
        }
        proof {
            if ids_of(self.rows()).contains(id) {
                let k = choose|k: int| 0 <= k < ids_of(self.rows()).len() && ids_of(self.rows())[k] == id;
                assert(self.rows@[k].spec_id() == id);
            }
        }
        None
    }
}

/// Builds the by-id lookup of a table. Two rows with the same id mean a corrupt file: that
/// fails with `DuplicateId` rather than letting one row hide the other.
pub fn group_by<T: HasId>(rows: Vec<T>) -> (r: Result<ById<T>, DecodeError>)
    ensures
        r is Ok <==> all_distinct(ids_of(rows@)),
        r matches Ok(m) ==> m.wf() && m.rows() == rows@,
        r matches Err(e) ==> e == DecodeError::DuplicateId,
{
    let mut i: usize = 0;
    while i < rows.len()
        invariant
            i <= rows@.len(),
            all_distinct(ids_of(rows@.subrange(0, i as int))),
        decreases rows@.len() - i,
    {
        let id = rows[i].id();
        let mut j: usize = 0;
        while j < i
            invariant
                j <= i < rows@.len(),
                id == rows@[i as int].spec_id(),
                forall|k: int| 0 <= k < j ==> rows@[k].spec_id() != id,
            decreases i - j,
        {
            let other = rows[j].id();
            if other == id {
                proof {
                    let s = ids_of(rows@);
                    assert(s[j as int] == rows@[j as int].spec_id());
                    assert(s[i as int] == rows@[i as int].spec_id());
                    assert(s[j as int] == s[i as int]);
                }
                return Err(DecodeError::DuplicateId);
            }
            j = j + 1;
        }
        proof {
            assert(forall|k: int| 0 <= k < i ==> rows@[k].spec_id() != id);
            let prev = ids_of(rows@.subrange(0, i as int));
            let next = ids_of(rows@.subrange(0, i + 1));
            assert forall|a: int, b: int| 0 <= a < b < next.len() implies next[a] != next[b] by {
                if b < i {
                    assert(next[a] == prev[a] && next[b] == prev[b]);
                }
            }
        }
        i = i + 1;
    }
    assert(rows@.subrange(0, rows@.len() as int) =~= rows@);
    Ok(ById { rows })
}

impl HasId for SpellCategoryDbcRow {
    open spec fn spec_id(&self) -> u32 {
        self.id
    }

    fn id(&self) -> (r: u32) {
        self.id
    }
}

impl HasId for SpellIconDbcRow {
    open spec fn spec_id(&self) -> u32 {
        self.id
    }

    fn id(&self) -> (r: u32) {
        self.id
    }
}

impl HasId for SpellVisualDbcRow {
    open spec fn spec_id(&self) -> u32 {
        self.id
    }

    fn id(&self) -> (r: u32) {
        self.id
    }
}

impl HasId for crate::spell_table::SpellDbcRow {
    open spec fn spec_id(&self) -> u32 {
        self.id
    }

    fn id(&self) -> (r: u32) {
        self.id
    }
}

impl HasId for TalentDbcRow {
    open spec fn spec_id(&self) -> u32 {
        self.id
    }

    fn id(&self) -> (r: u32) {
        self.id
    }
}

impl HasId for TalentTabRow {
    open spec fn spec_id(&self) -> u32 {
        self.id
    }

    fn id(&self) -> (r: u32) {
        self.id
    }
}

} // verus!
