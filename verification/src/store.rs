//! The record table and the six request operations.
//!
//! [`PatientStore`] gives the exact semantics of the backing table: rows in
//! natural scan order, ids assigned on insert and immutable afterwards, the
//! body-mass index recomputed from the current weight and height on every
//! write. The request handlers of the backend map one-to-one onto its
//! methods; the process around it only moves rows between this model and
//! the embedded database file.

use vstd::prelude::*;
use vstd::math::min;
use vstd::string::StringExecFns;
use crate::bmi::{Bmi, BmiV, spec_bmi, compute_bmi};
use crate::error::{DataCollectorError, DataCollectorResult};
use crate::patient::{Patient, PatientV, DbPatient, PatientName, PatientNameV};

verus! {

/// A stored row: the record, its id, and the persisted body-mass index.
#[derive(Debug, PartialEq)]
pub struct StoredPatient {
    pub id: i64,
    pub inner: Patient,
    pub bmi: Bmi,
}

/// The view of a [`StoredPatient`].
#[verifier::ext_equal]
pub struct StoredPatientV {
    pub id: int,
    pub inner: PatientV,
    pub bmi: BmiV,
}

impl View for StoredPatient {
    type V = StoredPatientV;

    open spec fn view(&self) -> StoredPatientV {
        StoredPatientV { id: self.id as int, inner: self.inner@, bmi: self.bmi@ }
    }
}

impl Clone for StoredPatient {
    fn clone(&self) -> (r: Self)
        ensures
            r == *self,
    {
        StoredPatient { id: self.id, inner: self.inner.clone(), bmi: self.bmi }
    }
}

/// The cap on the bulk listings: `names` and `prescription_years` never
/// return more than this many entries.
pub const ROW_LIMIT: usize = 10_000;

/// Whether some row of `rows` carries the id `id`.
pub open spec fn has_id(rows: Seq<StoredPatientV>, id: int) -> bool {
    exists|i: int| 0 <= i < rows.len() && (#[trigger] rows[i]).id == id
}

/// The index of the row carrying `id` (meaningful only when `has_id` holds;
/// under [`unique_ids`] it is the one such index).
pub open spec fn row_index(rows: Seq<StoredPatientV>, id: int) -> int {
    choose|i: int| 0 <= i < rows.len() && (#[trigger] rows[i]).id == id
}

/// No two rows carry the same id.
pub open spec fn unique_ids(rows: Seq<StoredPatientV>) -> bool {
    forall|i: int, j: int|
        0 <= i < j < rows.len() ==> (#[trigger] rows[i]).id != (#[trigger] rows[j]).id
}

/// Every row's persisted body-mass index is the one recomputed from the
/// row's own weight and height.
pub open spec fn bmi_consistent(rows: Seq<StoredPatientV>) -> bool {
    forall|i: int|
        0 <= i < rows.len() ==> (#[trigger] rows[i]).bmi == spec_bmi(
            rows[i].inner.weight,
            rows[i].inner.height,
        )
}

/// The (id, name) projection of the rows, in scan order.
pub open spec fn names_of(rows: Seq<StoredPatientV>) -> Seq<PatientNameV> {
    rows.map_values(|r: StoredPatientV| PatientNameV { id: r.id, name: r.inner.name })
}

/// The distinct prescription years of the rows, each at its first
/// occurrence, in scan order.
pub open spec fn distinct_years(rows: Seq<StoredPatientV>) -> Seq<int>
    decreases rows.len(),
{
    if rows.len() == 0 {
        Seq::empty()
    } else {
        let prefix = distinct_years(rows.drop_last());
        let year = rows.last().inner.prescription_year;
        if prefix.contains(year) {
            prefix
        } else {
            prefix.push(year)
        }
    }
}

/// The (id, name) projection of the rows whose prescription year is `year`,
/// in scan order.
pub open spec fn year_names(rows: Seq<StoredPatientV>, year: int) -> Seq<PatientNameV>
    decreases rows.len(),
{
    if rows.len() == 0 {
        Seq::empty()
    } else {
        let prefix = year_names(rows.drop_last(), year);
        if rows.last().inner.prescription_year == year {
            prefix.push(PatientNameV { id: rows.last().id, name: rows.last().inner.name })
        } else {
            prefix
        }
    }
}

/// The first `cap` entries of `s`, or all of them if there are fewer.
pub open spec fn capped<A>(s: Seq<A>, cap: int) -> Seq<A> {
    s.take(min(s.len() as int, cap))
}

/// The views of a sequence of (id, name) pairs.
pub open spec fn names_view(v: Seq<PatientName>) -> Seq<PatientNameV> {
    v.map_values(|p: PatientName| p@)
}

/// The values of a sequence of years.
pub open spec fn years_view(v: Seq<i64>) -> Seq<int> {
    v.map_values(|y: i64| y as int)
}

/// The view of a [`PatientStore`]: the rows in scan order and the id the
/// next insert will take.
#[verifier::ext_equal]
pub struct StoreV {
    pub next_id: int,
    pub rows: Seq<StoredPatientV>,
}

/// The record table: rows in natural scan order, plus the id counter.
pub struct PatientStore {
    next_id: i64,
    rows: Vec<StoredPatient>,
}

impl View for PatientStore {
    type V = StoreV;

    closed spec fn view(&self) -> StoreV {
        StoreV {
            next_id: self.next_id as int,
            rows: self.rows@.map_values(|r: StoredPatient| r@),
        }
    }
}

impl PatientStore {
    /// Well-formedness: ids start at 1, stay below the counter, never
    /// repeat, and every persisted body-mass index is consistent with its
    /// row.
    pub open spec fn wf(&self) -> bool {
        &&& 1 <= self@.next_id <= i64::MAX
        &&& forall|i: int|
            0 <= i < self@.rows.len() ==> 1 <= (#[trigger] self@.rows[i]).id < self@.next_id
        &&& unique_ids(self@.rows)
        &&& bmi_consistent(self@.rows)
    }

    /// An empty table.
    pub fn new() -> (s: PatientStore)
        ensures
            s.wf(),
            s@.rows == Seq::<StoredPatientV>::empty(),
            s@.next_id == 1,
    {
        let s = PatientStore { next_id: 1, rows: Vec::new() };
        proof {
            assert(s@.rows =~= Seq::<StoredPatientV>::empty());
        }
        s
    }

    /// Inserts a complete record as a new row: the table assigns the next
    /// id and computes the body-mass index from the record's weight and
    /// height. Fails only when the id space is exhausted, and then leaves
    /// the table unchanged.
    pub fn save(&mut self, patient: Patient) -> (r: DataCollectorResult<()>)
        requires
            old(self).wf(),
        ensures
            final(self).wf(),
            r is Ok <==> old(self)@.next_id < i64::MAX,
            r is Ok ==> final(self)@.next_id == old(self)@.next_id + 1 && final(self)@.rows == old(
                self,
            )@.rows.push(
                (StoredPatientV {
                    id: old(self)@.next_id,
                    inner: patient@,
                    bmi: spec_bmi(patient@.weight, patient@.height),
                }),
            ),
            r is Err ==> final(self)@ == old(self)@,
    {
        if self.next_id == i64::MAX {
            return Err(
                DataCollectorError::DbError(String::from_str("database error: no row id left")),
            );
        }
        let bmi = compute_bmi(patient.weight, patient.height);
        let id = self.next_id;
        let ghost new_row = StoredPatientV { id: id as int, inner: patient@, bmi: bmi@ };
        self.next_id = self.next_id + 1;
        self.rows.push(StoredPatient { id, inner: patient, bmi });
        proof {
            assert(self@.rows =~= old(self)@.rows.push(new_row));
            assert(forall|k: int|
                0 <= k < old(self)@.rows.len() ==> self@.rows[k] == old(self)@.rows[k]);
        }
        Ok(())
    }

    /// The index of the row carrying `id`, if any.
    fn find_index(&self, id: i64) -> (r: Option<usize>)
        requires
            self.wf(),
        ensures
            match r {
                Some(i) => i < self@.rows.len() && self@.rows[i as int].id == id as int && i
                    == row_index(self@.rows, id as int),
                None => !has_id(self@.rows, id as int),
            },
    {
        let n = self.rows.len();
        let mut i: usize = 0;
        while i < n
            invariant
                self.wf(),
                n == self@.rows.len(),
                i <= n,
                forall|j: int| 0 <= j < i ==> (#[trigger] self@.rows[j]).id != id as int,
            decreases n - i,
        {
            if self.rows[i].id == id {
                proof {
                    assert(self@.rows[i as int].id == id as int);
                    assert(has_id(self@.rows, id as int));
                    let k = row_index(self@.rows, id as int);
                    assert(0 <= k < self@.rows.len() && self@.rows[k].id == id as int);
                    if k < i as int {
                        assert(self@.rows[k].id != self@.rows[i as int].id);
                    } else if (i as int) < k {
                        assert(self@.rows[i as int].id != self@.rows[k].id);
                    }
                }
                return Some(i);
            }
            i = i + 1;
        }
        None
    }

    /// Overwrites every field of the row carrying the record's id, with the
    /// body-mass index recomputed from the new weight and height. Writing
    /// to an id that no row carries changes nothing and is not an error.
    pub fn update(&mut self, patient: DbPatient) -> (r: DataCollectorResult<()>)
        requires
            old(self).wf(),
        ensures
            final(self).wf(),
            r is Ok,
            final(self)@.next_id == old(self)@.next_id,
            has_id(old(self)@.rows, patient.id as int) ==> final(self)@.rows == old(
                self,
            )@.rows.update(
                row_index(old(self)@.rows, patient.id as int),
                (StoredPatientV {
                    id: patient.id as int,
                    inner: patient.inner@,
                    bmi: spec_bmi(patient.inner@.weight, patient.inner@.height),
                }),
            ),
            !has_id(old(self)@.rows, patient.id as int) ==> final(self)@.rows == old(self)@.rows,
    {
        match self.find_index(patient.id) {
            Some(i) => {
                let bmi = compute_bmi(patient.inner.weight, patient.inner.height);
                let ghost new_row = StoredPatientV {
                    id: patient.id as int,
                    inner: patient.inner@,
                    bmi: bmi@,
                };
                self.rows[i] = StoredPatient { id: patient.id, inner: patient.inner, bmi };
                proof {
                    assert(self@.rows =~= old(self)@.rows.update(i as int, new_row));
                    assert(forall|k: int|
                        0 <= k < old(self)@.rows.len() && k != i as int ==> self@.rows[k] == old(
                            self,
                        )@.rows[k]);
                }
                Ok(())
            },
            None => Ok(()),
        }
    }

    /// Fetches the full row carrying `id`. Exactly one row is expected: if
    /// none carries the id, the database error is returned, never a default
    /// or empty record.
    pub fn get_patient(&self, id: i64) -> (r: DataCollectorResult<StoredPatient>)
        requires
            self.wf(),
        ensures
            r is Ok <==> has_id(self@.rows, id as int),
            r matches Ok(p) ==> p@ == self@.rows[row_index(self@.rows, id as int)] && p.id == id,
    {
        match self.find_index(id) {
            Some(i) => Ok(self.rows[i].clone()),
            None => Err(
                DataCollectorError::DbError(
                    String::from_str(
                        "database error: no rows returned by a query that expected to return at least one row",
                    ),
                ),
            ),
        }
    }

    /// Lists the (id, name) pairs of the first rows in scan order, capped
    /// at [`ROW_LIMIT`] entries.
    pub fn names(&self) -> (r: DataCollectorResult<Vec<PatientName>>)
        requires
            self.wf(),
        ensures
            r is Ok,
            r matches Ok(v) ==> names_view(v@) == capped(names_of(self@.rows), ROW_LIMIT as int)
                && v@.len() <= ROW_LIMIT,
    {
        let n = self.rows.len();
        let mut out: Vec<PatientName> = Vec::new();
        let mut i: usize = 0;
        while i < n && i < ROW_LIMIT
            invariant
                self.wf(),
                n == self@.rows.len(),
                i <= n,
                i <= ROW_LIMIT,
                out@.len() == i,
                names_view(out@) == names_of(self@.rows).take(i as int),
            decreases n - i,
        {
            let entry = PatientName::new(self.rows[i].id, self.rows[i].inner.name.clone());
            out.push(entry);
            i = i + 1;
            proof {
                assert(names_view(out@) =~= names_of(self@.rows).take(i as int));
            }
        }
        proof {
            assert(i as int == min(names_of(self@.rows).len() as int, ROW_LIMIT as int));
            assert(names_view(out@) =~= capped(names_of(self@.rows), ROW_LIMIT as int));
        }
        Ok(out)
    }

    /// Lists the distinct prescription years present, by first occurrence
    /// in scan order, capped at [`ROW_LIMIT`] entries.
    pub fn prescription_years(&self) -> (r: DataCollectorResult<Vec<i64>>)
        requires
            self.wf(),
        ensures
            r is Ok,
            r matches Ok(v) ==> years_view(v@) == capped(
                distinct_years(self@.rows),
                ROW_LIMIT as int,
            ) && v@.len() <= ROW_LIMIT,
    {
        let n = self.rows.len();
        let mut out: Vec<i64> = Vec::new();
        let mut i: usize = 0;
        while i < n
            invariant
                self.wf(),
                n == self@.rows.len(),
                i <= n,
                out@.len() <= ROW_LIMIT,
                years_view(out@) == capped(
                    distinct_years(self@.rows.take(i as int)),
                    ROW_LIMIT as int,
                ),
                out@.len() < ROW_LIMIT ==> years_view(out@) == distinct_years(
                    self@.rows.take(i as int),
                ),
            decreases n - i,
        {
            let year = self.rows[i].inner.prescription_year;
            let ghost prefix = distinct_years(self@.rows.take(i as int));
            let ghost next = distinct_years(self@.rows.take(i as int + 1));
            proof {
                assert(self@.rows.take(i as int + 1).drop_last() =~= self@.rows.take(i as int));
                assert(self@.rows.take(i as int + 1).last() == self@.rows[i as int]);
                assert(next == if prefix.contains(year as int) {
                    prefix
                } else {
                    prefix.push(year as int)
                });
            }
            if out.len() < ROW_LIMIT && !contains_year(&out, year) {
                proof {
                    lemma_years_view_contains(out@, year);
                    assert(!prefix.contains(year as int));
                }
                out.push(year);
                proof {
                    assert(years_view(out@) =~= prefix.push(year as int));
                    assert(years_view(out@) == next);
                    assert(capped(next, ROW_LIMIT as int) =~= next);
                }
            } else {
                proof {
                    if out@.len() < ROW_LIMIT {
                        lemma_years_view_contains(out@, year);
                        assert(prefix.contains(year as int));
                        assert(next == prefix);
                    } else {
                        assert(out@.len() == ROW_LIMIT);
                        assert(years_view(out@).len() == out@.len());
                        assert(capped(prefix, ROW_LIMIT as int).len() == min(
                            prefix.len() as int,
                            ROW_LIMIT as int,
                        ));
                        assert(prefix.len() >= ROW_LIMIT);
                        if !prefix.contains(year as int) {
                            assert(capped(next, ROW_LIMIT as int) =~= capped(
                                prefix,
                                ROW_LIMIT as int,
                            ));
                        }
                    }
                }
            }
            i = i + 1;
        }
        proof {
            assert(self@.rows.take(n as int) =~= self@.rows);
        }
        Ok(out)
    }

    /// Lists the (id, name) pairs of every row whose prescription year is
    /// `prescription_year`, in scan order; a year with no matches yields
    /// the empty list, not an error.
    pub fn get_by_prescription_year(&self, prescription_year: i64) -> (r: DataCollectorResult<
        Vec<PatientName>,
    >)
        requires
            self.wf(),
        ensures
            r is Ok,
            r matches Ok(v) ==> names_view(v@) == year_names(
                self@.rows,
                prescription_year as int,
            ),
    {
        let n = self.rows.len();
        let mut out: Vec<PatientName> = Vec::new();
        let mut i: usize = 0;
        while i < n
            invariant
                self.wf(),
                n == self@.rows.len(),
                i <= n,
                names_view(out@) == year_names(self@.rows.take(i as int), prescription_year as int),
            decreases n - i,
        {
            proof {
                assert(self@.rows.take(i as int + 1).drop_last() =~= self@.rows.take(i as int));
                assert(self@.rows.take(i as int + 1).last() == self@.rows[i as int]);
            }
            if self.rows[i].inner.prescription_year == prescription_year {
                let entry = PatientName::new(self.rows[i].id, self.rows[i].inner.name.clone());
                out.push(entry);
            }
            proof {
                assert(names_view(out@) =~= year_names(
                    self@.rows.take(i as int + 1),
                    prescription_year as int,
                ));
            }
            i = i + 1;
        }
        proof {
            assert(self@.rows.take(n as int) =~= self@.rows);
        }
        Ok(out)
    }
}

/// Overwriting a stored record and then fetching the same id yields exactly
/// the fields just written, with the body-mass index recomputed from the
/// written weight and height - never one supplied by the caller.
///
/// `rows.update(row_index(rows, id), ...)` is the row sequence after
/// [`PatientStore::update`] on an id some row carries, and
/// `updated[row_index(updated, id)]` is the row that
/// [`PatientStore::get_patient`] then returns.
pub proof fn lemma_update_then_get(rows: Seq<StoredPatientV>, id: int, written: PatientV)
    requires
        unique_ids(rows),
        has_id(rows, id),
    ensures
        ({
            let row = StoredPatientV {
                id,
                inner: written,
                bmi: spec_bmi(written.weight, written.height),
            };
            let updated = rows.update(row_index(rows, id), row);
            has_id(updated, id) && updated[row_index(updated, id)] == row
        }),
{
    let row = StoredPatientV { id, inner: written, bmi: spec_bmi(written.weight, written.height) };
    let i = row_index(rows, id);
    assert(0 <= i < rows.len() && rows[i].id == id);
    let updated = rows.update(i, row);
    assert(updated[i].id == id);
    assert(has_id(updated, id));
    let j = row_index(updated, id);
    assert(0 <= j < updated.len() && updated[j].id == id);
    if j < i {
        assert(rows[j].id != rows[i].id);
    } else if i < j {
        assert(rows[i].id != rows[j].id);
    }
}

/// The year listing is a set: it holds no duplicates, and it holds a year
/// exactly when some row carries it.
pub proof fn lemma_distinct_years_exact(rows: Seq<StoredPatientV>)
    ensures
        forall|a: int, b: int|
            0 <= a < b < distinct_years(rows).len() ==> distinct_years(rows)[a]
                != distinct_years(rows)[b],
        forall|y: int|
            #[trigger] distinct_years(rows).contains(y) <==> exists|i: int|
                0 <= i < rows.len() && (#[trigger] rows[i]).inner.prescription_year == y,
    decreases rows.len(),
{
    if rows.len() > 0 {
        let prefix_rows = rows.drop_last();
        lemma_distinct_years_exact(prefix_rows);
        let ys = distinct_years(rows);
        let pys = distinct_years(prefix_rows);
        let year = rows.last().inner.prescription_year;
        assert(forall|i: int| 0 <= i < prefix_rows.len() ==> prefix_rows[i] == rows[i]);
        assert forall|y: int| #[trigger] ys.contains(y) implies exists|i: int|
            0 <= i < rows.len() && (#[trigger] rows[i]).inner.prescription_year == y by {
            let k = choose|k: int| 0 <= k < ys.len() && ys[k] == y;
            if k < pys.len() {
                assert(pys.contains(y));
                let i = choose|i: int|
                    0 <= i < prefix_rows.len() && (#[trigger] prefix_rows[i]).inner.prescription_year
                        == y;
                assert(rows[i].inner.prescription_year == y);
            } else {
                assert(y == year);
                assert(rows[rows.len() - 1].inner.prescription_year == y);
            }
        }
        assert forall|y: int|
            exists|i: int|
                0 <= i < rows.len() && (#[trigger] rows[i]).inner.prescription_year
                    == y implies #[trigger] ys.contains(y) by {
            let i = choose|i: int|
                0 <= i < rows.len() && (#[trigger] rows[i]).inner.prescription_year == y;
            if i < rows.len() - 1 {
                assert(prefix_rows[i].inner.prescription_year == y);
                assert(pys.contains(y));
                let k = choose|k: int| 0 <= k < pys.len() && pys[k] == y;
                assert(ys[k] == y);
                assert(ys.contains(y));
            } else {
                assert(y == year);
                if pys.contains(year) {
                    assert(ys.contains(y));
                } else {
                    assert(ys[ys.len() - 1] == year);
                    assert(ys.contains(y));
                }
            }
        }
        if pys.contains(year) {
            assert(ys == pys);
        } else {
            assert(forall|a: int| 0 <= a < pys.len() ==> #[trigger] pys[a] != year);
            assert(forall|a: int| 0 <= a < ys.len() - 1 ==> #[trigger] ys[a] == pys[a]);
            assert(ys[ys.len() - 1] == year);
        }
    }
}

/// Whether `entry` is the (id, name) pair of some row whose prescription
/// year is `year`.
pub open spec fn listed_from_row(
    rows: Seq<StoredPatientV>,
    year: int,
    entry: PatientNameV,
) -> bool {
    exists|i: int|
        0 <= i < rows.len() && (#[trigger] rows[i]).inner.prescription_year == year && entry
            == (PatientNameV { id: rows[i].id, name: rows[i].inner.name })
}

/// Every entry listed for a year comes from a row whose prescription year
/// is that year, and a year carried by no row yields the empty listing.
pub proof fn lemma_year_names_matches(rows: Seq<StoredPatientV>, year: int)
    ensures
        forall|k: int|
            0 <= k < year_names(rows, year).len() ==> listed_from_row(
                rows,
                year,
                #[trigger] year_names(rows, year)[k],
            ),
        (forall|i: int|
            0 <= i < rows.len() ==> (#[trigger] rows[i]).inner.prescription_year != year)
            ==> year_names(rows, year) == Seq::<PatientNameV>::empty(),
    decreases rows.len(),
{
    if rows.len() == 0 {
        assert(year_names(rows, year) =~= Seq::<PatientNameV>::empty());
    } else {
        let prefix_rows = rows.drop_last();
        lemma_year_names_matches(prefix_rows, year);
        let yn = year_names(rows, year);
        let pyn = year_names(prefix_rows, year);
        assert(forall|i: int| 0 <= i < prefix_rows.len() ==> prefix_rows[i] == rows[i]);
        assert forall|k: int| 0 <= k < yn.len() implies listed_from_row(
            rows,
            year,
            #[trigger] yn[k],
        ) by {
            if k < pyn.len() {
                assert(listed_from_row(prefix_rows, year, pyn[k]));
                let i = choose|i: int|
                    0 <= i < prefix_rows.len() && (
                    #[trigger] prefix_rows[i]).inner.prescription_year == year && pyn[k]
                        == (PatientNameV {
                        id: prefix_rows[i].id,
                        name: prefix_rows[i].inner.name,
                    });
                assert(rows[i].inner.prescription_year == year && yn[k] == (PatientNameV {
                    id: rows[i].id,
                    name: rows[i].inner.name,
                }));
            } else {
                let i = rows.len() - 1;
                assert(rows[i].inner.prescription_year == year && yn[k] == (PatientNameV {
                    id: rows[i].id,
                    name: rows[i].inner.name,
                }));
            }
        }
        if forall|i: int|
            0 <= i < rows.len() ==> (#[trigger] rows[i]).inner.prescription_year != year {
            assert(rows[rows.len() - 1].inner.prescription_year != year);
            assert(yn == pyn);
            assert(yn == Seq::<PatientNameV>::empty());
        }
    }
}

/// Containment of a year is the same over the values as over the views.
proof fn lemma_years_view_contains(v: Seq<i64>, year: i64)
    ensures
        years_view(v).contains(year as int) <==> v.contains(year),
{
    if v.contains(year) {
        let i = choose|i: int| 0 <= i < v.len() && v[i] == year;
        assert(years_view(v)[i] == year as int);
    }
    if years_view(v).contains(year as int) {
        let i = choose|i: int| 0 <= i < years_view(v).len() && years_view(v)[i] == year as int;
        assert(v[i] as int == year as int);
        assert(v[i] == year);
    }
}

/// Whether `v` holds `year`.
fn contains_year(v: &Vec<i64>, year: i64) -> (r: bool)
    ensures
        r == v@.contains(year),
{
    let n = v.len();
    let mut i: usize = 0;
    while i < n
        invariant
            n == v@.len(),
            i <= n,
            forall|j: int| 0 <= j < i ==> v@[j] != year,
        decreases n - i,
    {
        if v[i] == year {
            return true;
        }
        i = i + 1;
    }
    false
}

} // verus!
