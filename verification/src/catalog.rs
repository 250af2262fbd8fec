//! The local title catalog: rows of (id, normalized name) in catalog order,
//! with exact lookup, capped substring search, insertion and full listing.

use vstd::prelude::*;
use crate::text::{
    normalize, normalize_chars, contains_sub, contains_str, str_eq,
};

verus! {

/// One catalog row: a stable numeric id and the normalized title name.
pub struct Entry {
    pub id: u32,
    pub name: String,
}

/// Failure of a catalog insertion.
#[derive(PartialEq, Eq, Structural, Clone, Copy, Debug)]
pub enum CatalogError {
    IdConflict,
}

/// The local title catalog.
pub struct Catalog {
    entries: Vec<Entry>,
}

impl Entry {
    /// The mathematical value of a row: its id and its name's characters.
    pub open spec fn row(&self) -> (u32, Seq<char>) {
        (self.id, self.name@)
    }
}

/// The id of the first row whose name is exactly `name`, or -1 if no row has
/// that name.
pub open spec fn lookup_spec(rows: Seq<(u32, Seq<char>)>, name: Seq<char>) -> int
    decreases rows.len(),
{
    if rows.len() == 0 {
        -1
    } else if rows[0].1 == name {
        rows[0].0 as int
    } else {
        lookup_spec(rows.drop_first(), name)
    }
}

/// The names of the first `cap` rows whose name contains `q`, in catalog
/// order.
pub open spec fn search_spec(rows: Seq<(u32, Seq<char>)>, q: Seq<char>, cap: int) -> Seq<Seq<char>>
    decreases rows.len(),
{
    if rows.len() == 0 || cap <= 0 {
        Seq::empty()
    } else if contains_sub(rows[0].1, q) {
        seq![rows[0].1] + search_spec(rows.drop_first(), q, cap - 1)
    } else {
        search_spec(rows.drop_first(), q, cap)
    }
}

/// A name that stands in no row is never resolved: lookup yields the -1
/// sentinel for it, and every non-sentinel result is the id of a row that
/// holds the looked-up name, hence non-negative and distinguishable from the
/// sentinel.
pub proof fn lemma_lookup_not_found(rows: Seq<(u32, Seq<char>)>, name: Seq<char>)
    ensures
        (forall|k: int| 0 <= k < rows.len() ==> rows[k].1 != name) ==> lookup_spec(rows, name)
            == -1,
        lookup_spec(rows, name) != -1 ==> exists|k: int|
            0 <= k < rows.len() && rows[k].1 == name && lookup_spec(rows, name) == rows[k].0,
        lookup_spec(rows, name) != -1 ==> lookup_spec(rows, name) >= 0,
    decreases rows.len(),
{
    if rows.len() == 0 {
    } else if rows[0].1 == name {
        assert(0 <= 0 < rows.len() && rows[0].1 == name && lookup_spec(rows, name) == rows[0].0);
    } else {
        lemma_lookup_not_found(rows.drop_first(), name);
        if lookup_spec(rows, name) != -1 {
            let k = choose|k: int|
                0 <= k < rows.drop_first().len() && rows.drop_first()[k].1 == name
                    && lookup_spec(rows.drop_first(), name) == rows.drop_first()[k].0;
            assert(rows[k + 1] == rows.drop_first()[k]);
            assert(0 <= k + 1 < rows.len() && rows[k + 1].1 == name
                && lookup_spec(rows, name) == rows[k + 1].0);
        }
    }
}

/// A successful insertion makes any later insertion of the same id
/// conflict, whatever name comes with it: after the rows grew by the id,
/// the id stands among them, which is exactly the condition under which
/// `add_title` returns `IdConflict` and leaves the rows unchanged.
pub proof fn lemma_insert_same_id_conflicts(rows: Seq<(u32, Seq<char>)>, id: u32, name: Seq<char>)
    ensures
        exists|k: int|
            0 <= k < rows.push((id, name)).len() && (#[trigger] rows.push((id, name))[k]).0 == id,
{
    assert(rows.push((id, name))[rows.len() as int].0 == id);
}

/// Search returns at most `cap` names, each of which contains the query.
pub proof fn lemma_search_spec_sound(rows: Seq<(u32, Seq<char>)>, q: Seq<char>, cap: int)
    ensures
        cap >= 0 ==> search_spec(rows, q, cap).len() <= cap,
        forall|k: int| 0 <= k < search_spec(rows, q, cap).len() ==> contains_sub(
            #[trigger] search_spec(rows, q, cap)[k],
            q,
        ),
    decreases rows.len(),
{
    if rows.len() == 0 || cap <= 0 {
    } else if contains_sub(rows[0].1, q) {
        lemma_search_spec_sound(rows.drop_first(), q, cap - 1);
    } else {
        lemma_search_spec_sound(rows.drop_first(), q, cap);
    }
}

impl Catalog {
    /// The rows of the catalog, in catalog order.
    pub closed spec fn rows(&self) -> Seq<(u32, Seq<char>)> {
        self.entries@.map_values(|e: Entry| e.row())
    }

    /// Well-formed: ids are unique and every name is normalized.
    pub open spec fn wf(&self) -> bool {
        &&& forall|i: int, j: int|
            0 <= i < j < self.rows().len() ==> self.rows()[i].0 != self.rows()[j].0
        &&& forall|i: int|
            0 <= i < self.rows().len() ==> self.rows()[i].1 == normalize_chars(
                #[trigger] self.rows()[i].1,
            )
    }

    /// An empty catalog.
    pub fn new() -> (r: Catalog)
        ensures
            r.rows() == Seq::<(u32, Seq<char>)>::empty(),
            r.wf(),
    {
        let r = Catalog { entries: Vec::new() };
        proof {
            assert(r.rows() =~= Seq::<(u32, Seq<char>)>::empty());
        }
        r
    }

    /// Exact lookup of a normalized name; -1 is the not-found sentinel.
    pub fn get_title_id(&self, name: &str) -> (r: i64)
        ensures
            r == lookup_spec(self.rows(), name@),
    {
        let n = self.entries.len();
        proof {
            assert(self.rows().skip(0) =~= self.rows());
        }
        let mut i: usize = 0;
        while i < n
            invariant
                i <= n,
                n == self.entries@.len(),
                lookup_spec(self.rows(), name@) == lookup_spec(
                    self.rows().skip(i as int),
                    name@,
                ),
            decreases n - i,
        {
            proof {
                assert(self.rows().skip(i as int)[0] == self.rows()[i as int]);
                assert(self.rows().skip(i as int).drop_first() =~= self.rows().skip(i as int + 1));
            }
            if str_eq(self.entries[i].name.as_str(), name) {
                return self.entries[i].id as i64;
            }
            i += 1;
        }
        proof {
            assert(self.rows().skip(n as int) =~= Seq::<(u32, Seq<char>)>::empty());
        }
        -1
    }

    /// Insert a row; fails with `IdConflict` when the id is already present,
    /// and otherwise appends the id with the normalized name.
    pub fn add_title(&mut self, id: u32, name: &str) -> (r: Result<u32, CatalogError>)
        requires
            old(self).wf(),
        ensures
            final(self).wf(),
            (exists|k: int| 0 <= k < old(self).rows().len() && (#[trigger] old(self).rows()[k]).0
                == id) ==> r == Err::<u32, CatalogError>(CatalogError::IdConflict)
                && final(self).rows() == old(self).rows(),
            !(exists|k: int| 0 <= k < old(self).rows().len() && (#[trigger] old(self).rows()[k]).0
                == id) ==> r == Ok::<u32, CatalogError>(id)
                && final(self).rows() == old(self).rows().push((id, normalize_chars(name@))),
    {
        let n = self.entries.len();
        let mut i: usize = 0;
        while i < n
            invariant
                i <= n,
                n == self.entries@.len(),
                *self == *old(self),
                self.wf(),
                forall|k: int| 0 <= k < i ==> (#[trigger] self.rows()[k]).0 != id,
            decreases n - i,
        {
            if self.entries[i].id == id {
                proof {
                    assert(self.rows()[i as int].0 == id);
                    assert(self.wf());
                }
                return Err(CatalogError::IdConflict);
            }
            i += 1;
        }
        let ghost old_rows = self.rows();
        let normalized = normalize(name);
        self.entries.push(Entry { id, name: normalized });
        proof {
            assert(self.rows() =~= old_rows.push((id, normalize_chars(name@))));
            crate::text::lemma_normalize_idempotent(name@);
        }
        Ok(id)
    }

    /// Names of the rows whose name contains the normalized query, in
    /// catalog order, capped at 10 results.
    pub fn search_titles_by_name(&self, query: &str) -> (r: Vec<String>)
        ensures
            r.deep_view() == search_spec(self.rows(), normalize_chars(query@), 10),
            r.deep_view().len() <= 10,
            forall|k: int| 0 <= k < r.deep_view().len() ==> contains_sub(
                #[trigger] r.deep_view()[k],
                normalize_chars(query@),
            ),
    {
        let q = normalize(query);
        let ghost qv = normalize_chars(query@);
        let n = self.entries.len();
        let mut out: Vec<String> = Vec::new();
        proof {
            assert(out.deep_view() =~= Seq::<Seq<char>>::empty());
            assert(self.rows().skip(0) =~= self.rows());
            assert(out.deep_view() + search_spec(self.rows(), qv, 10) =~= search_spec(
                self.rows(),
                qv,
                10,
            ));
        }
        let mut i: usize = 0;
        while i < n && out.len() < 10
            invariant
                i <= n,
                n == self.entries@.len(),
                q@ == qv,
                out.deep_view().len() <= 10,
                search_spec(self.rows(), qv, 10) == out.deep_view() + search_spec(
                    self.rows().skip(i as int),
                    qv,
                    10 - out.deep_view().len(),
                ),
            decreases n - i,
        {
            proof {
                assert(self.rows().skip(i as int)[0] == self.rows()[i as int]);
                assert(self.rows().skip(i as int).drop_first() =~= self.rows().skip(i as int + 1));
            }
            let ghost out_pre = out.deep_view();
            if contains_str(self.entries[i].name.as_str(), q.as_str()) {
                out.push(self.entries[i].name.clone());
                proof {
                    assert(out.deep_view() =~= out_pre.push(self.rows()[i as int].1));
                    assert(out_pre + (seq![self.rows()[i as int].1] + search_spec(
                        self.rows().skip(i as int + 1),
                        qv,
                        10 - out_pre.len() - 1,
                    )) =~= out.deep_view() + search_spec(
                        self.rows().skip(i as int + 1),
                        qv,
                        10 - out.deep_view().len(),
                    ));
                }
            }
            i += 1;
        }
        proof {
            if i == n {
                assert(self.rows().skip(n as int) =~= Seq::<(u32, Seq<char>)>::empty());
            }
            assert(search_spec(self.rows().skip(i as int), qv, 10 - out.deep_view().len())
                =~= Seq::<Seq<char>>::empty());
            assert(out.deep_view() + Seq::<Seq<char>>::empty() =~= out.deep_view());
            lemma_search_spec_sound(self.rows(), qv, 10);
        }
        out
    }

    /// All catalog names, in catalog order.
    pub fn get_supported_titles(&self) -> (r: Vec<String>)
        ensures
            r.deep_view() == self.rows().map_values(|row: (u32, Seq<char>)| row.1),
    {
        let n = self.entries.len();
        let mut out: Vec<String> = Vec::new();
        let mut i: usize = 0;
        while i < n
            invariant
                i <= n,
                n == self.entries@.len(),
                out.deep_view() =~= self.rows().take(i as int).map_values(
                    |row: (u32, Seq<char>)| row.1,
                ),
            decreases n - i,
        {
            let ghost out_pre = out.deep_view();
            out.push(self.entries[i].name.clone());
            proof {
                assert(out.deep_view() =~= out_pre.push(self.rows()[i as int].1));
                assert(out.deep_view() =~= self.rows().take(i as int + 1).map_values(
                    |row: (u32, Seq<char>)| row.1,
                ));
            }
            i += 1;
        }
        proof {
            assert(self.rows().take(n as int) =~= self.rows());
        }
        out
    }
}

} // verus!
