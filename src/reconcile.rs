//! Resolving the molecule names of imported coefficient rows to the ids of
//! stored molecules.
use vstd::prelude::*;

use crate::models::{
    molecule_views, row_views, AntoineCoeff, AntoineCoeffCSV, AntoineCoeffCSVView, Molecule,
    MoleculeView,
};

verus! {

/// Why a name could not be resolved to one molecule.
#[derive(Clone, Copy, Debug, PartialEq, Eq, Structural)]
pub enum ReconcileError {
    /// No stored molecule has the name.
    NoSuchMolecule,
    /// `count` stored molecules, more than one, have the name.
    AmbiguousName { count: usize },
}

/// A row of a batch that could not be resolved, by its index in the batch.
#[derive(Clone, Copy, Debug, PartialEq, Eq, Structural)]
pub struct RowError {
    pub row: usize,
    pub error: ReconcileError,
}

/// The stored molecules whose name is exactly `name`, in storage order.
pub open spec fn molecules_named(store: Seq<MoleculeView>, name: Seq<char>) -> Seq<MoleculeView>
    decreases store.len(),
{
    if store.len() == 0 {
        Seq::empty()
    } else {
        let rest = molecules_named(store.drop_last(), name);
        if store.last().name == name {
            rest.push(store.last())
        } else {
            rest
        }
    }
}

/// The id that `name` resolves to: that of the one molecule of that name.
pub open spec fn resolution(store: Seq<MoleculeView>, name: Seq<char>) -> Result<i32, ReconcileError> {
    let found = molecules_named(store, name);
    if found.len() == 0 {
        Err(ReconcileError::NoSuchMolecule)
    } else if found.len() == 1 {
        Ok(found[0].molecule_id)
    } else {
        Err(ReconcileError::AmbiguousName { count: found.len() as usize })
    }
}

/// The coefficient record that a row becomes once its molecule is known:
/// id unset, numbers copied verbatim.
pub open spec fn coeff_of_row(row: AntoineCoeffCSVView, mol_id: i32) -> AntoineCoeff {
    AntoineCoeff {
        id: 0,
        mol_id,
        low_temp: row.low_temp,
        max_temp: row.max_temp,
        a: row.a,
        b: row.b,
        c: row.c,
    }
}

/// What one row reconciles to against the stored molecules.
pub open spec fn reconciled(row: AntoineCoeffCSVView, store: Seq<MoleculeView>) -> Result<
    AntoineCoeff,
    ReconcileError,
> {
    match resolution(store, row.name) {
        Ok(id) => Ok(coeff_of_row(row, id)),
        Err(e) => Err(e),
    }
}

/// Whether every row of a batch resolves.
pub open spec fn all_resolve(rows: Seq<AntoineCoeffCSVView>, store: Seq<MoleculeView>) -> bool {
    forall|i: int| 0 <= i < rows.len() ==> (#[trigger] reconciled(rows[i], store)) is Ok
}

/// The records of a batch whose every row resolves, row by row.
pub open spec fn batch_records(rows: Seq<AntoineCoeffCSVView>, store: Seq<MoleculeView>) -> Seq<
    AntoineCoeff,
> {
    rows.map_values(|r: AntoineCoeffCSVView| reconciled(r, store)->Ok_0)
}

/// The rows of a batch that do not resolve, in order, each with its error.
pub open spec fn batch_failures(rows: Seq<AntoineCoeffCSVView>, store: Seq<MoleculeView>) -> Seq<
    RowError,
>
    decreases rows.len(),
{
    if rows.len() == 0 {
        Seq::empty()
    } else {
        let rest = batch_failures(rows.drop_last(), store);
        match reconciled(rows.last(), store) {
            Ok(_) => rest,
            Err(e) => rest.push(RowError { row: (rows.len() - 1) as usize, error: e }),
        }
    }
}

/// The outcome of a batch: all records, or the failing rows and nothing
/// else.
pub open spec fn batch_outcome(rows: Seq<AntoineCoeffCSVView>, store: Seq<MoleculeView>) -> Result<
    Seq<AntoineCoeff>,
    Seq<RowError>,
> {
    if all_resolve(rows, store) {
        Ok(batch_records(rows, store))
    } else {
        Err(batch_failures(rows, store))
    }
}

/// Resolves `name` to the id of the one stored molecule that has it.
pub fn resolve_molecule(name: &String, store: &Vec<Molecule>) -> (r: Result<i32, ReconcileError>)
    ensures
        r == resolution(molecule_views(store@), name@),
{
    let ghost views = molecule_views(store@);
    let mut count: usize = 0;
    let mut first: i32 = 0;
    let mut i: usize = 0;
    while i < store.len()
        invariant
            i <= store.len(),
            count <= i,
            views == molecule_views(store@),
            count == molecules_named(views.subrange(0, i as int), name@).len(),
            count > 0 ==> first == molecules_named(views.subrange(0, i as int), name@)[0].molecule_id,
        decreases store.len() - i,
    {
        let ghost before = views.subrange(0, i as int);
        assert(views.subrange(0, i + 1).drop_last() =~= before);
        if store[i].name == *name {
            if count == 0 {
                first = store[i].molecule_id;
            }
            count = count + 1;
        }
        i = i + 1;
    }
    assert(views.subrange(0, store.len() as int) =~= views);
    if count == 0 {
        Err(ReconcileError::NoSuchMolecule)
    } else if count == 1 {
        Ok(first)
    } else {
        Err(ReconcileError::AmbiguousName { count })
    }
}

impl AntoineCoeff {
    /// The coefficient record of `row`: its molecule name resolved to the
    /// id of the one stored molecule of that name, every number copied.
    pub fn reconcile(row: &AntoineCoeffCSV, store: &Vec<Molecule>) -> (r: Result<
        AntoineCoeff,
        ReconcileError,
    >)
        ensures
            r == reconciled(row@, molecule_views(store@)),
    {
        match resolve_molecule(&row.name, store) {
            Ok(mol_id) => Ok(
                AntoineCoeff {
                    id: 0,
                    mol_id,
                    low_temp: row.low_temp,
                    max_temp: row.max_temp,
                    a: row.a,
                    b: row.b,
                    c: row.c,
                },
            ),
            Err(e) => Err(e),
        }
    }
}

/// Reconciles a whole batch. Every row is tried; the records come back only
/// when every row resolves, and otherwise every failing row is reported and
/// no record is returned.
pub fn reconcile_all(rows: &Vec<AntoineCoeffCSV>, store: &Vec<Molecule>) -> (r: Result<
    Vec<AntoineCoeff>,
    Vec<RowError>,
>)
    ensures
        match r {
            Ok(v) => batch_outcome(row_views(rows@), molecule_views(store@)) == Ok::<
                Seq<AntoineCoeff>,
                Seq<RowError>,
            >(v@),
            Err(e) => batch_outcome(row_views(rows@), molecule_views(store@)) == Err::<
                Seq<AntoineCoeff>,
                Seq<RowError>,
            >(e@),
        },
{
    let ghost rv = row_views(rows@);
    let ghost sv = molecule_views(store@);
    let mut records: Vec<AntoineCoeff> = Vec::new();
    let mut failures: Vec<RowError> = Vec::new();
    let mut i: usize = 0;
    while i < rows.len()
        invariant
            i <= rows.len(),
            rv == row_views(rows@),
            sv == molecule_views(store@),
            failures@ == batch_failures(rv.subrange(0, i as int), sv),
            failures@.len() == 0 <==> all_resolve(rv.subrange(0, i as int), sv),
            all_resolve(rv.subrange(0, i as int), sv) ==> records@ == batch_records(
                rv.subrange(0, i as int),
                sv,
            ),
        decreases rows.len() - i,
    {
        let ghost before = rv.subrange(0, i as int);
        let ghost after = rv.subrange(0, i + 1);
        assert(after.drop_last() =~= before);
        assert(after.last() == rows@[i as int]@);
        match AntoineCoeff::reconcile(&rows[i], store) {
            Ok(c) => {
                assert(all_resolve(after, sv) == all_resolve(before, sv)) by {
                    if all_resolve(before, sv) {
                        assert forall|k: int| 0 <= k < after.len() implies (#[trigger] reconciled(
                            after[k],
                            sv,
                        )) is Ok by {
                            if k < i {
                                assert(after[k] == before[k]);
                            }
                        }
                    }
                    if all_resolve(after, sv) {
                        assert forall|k: int| 0 <= k < before.len() implies (#[trigger] reconciled(
                            before[k],
                            sv,
                        )) is Ok by {
                            assert(after[k] == before[k]);
                        }
                    }
                }
                records.push(c);
                assert(all_resolve(after, sv) ==> records@ =~= batch_records(after, sv));
            },
            Err(e) => {
                assert(!all_resolve(after, sv)) by {
                    assert(!(reconciled(after[i as int], sv) is Ok));
                }
                failures.push(RowError { row: i, error: e });
            },
        }
        i = i + 1;
    }
    assert(rv.subrange(0, rows.len() as int) =~= rv);
    if failures.len() == 0 {
        Ok(records)
    } else {
        Err(failures)
    }
}

proof fn lemma_none_named(store: Seq<MoleculeView>, name: Seq<char>)
    requires
        forall|k: int| 0 <= k < store.len() ==> (#[trigger] store[k]).name != name,
    ensures
        molecules_named(store, name).len() == 0,
    decreases store.len(),
{
    if store.len() > 0 {
        let prefix = store.drop_last();
        assert forall|k: int| 0 <= k < prefix.len() implies (#[trigger] prefix[k]).name != name by {
            assert(prefix[k] == store[k]);
        }
        lemma_none_named(prefix, name);
        assert(store.last() == store[store.len() - 1]);
    }
}

proof fn lemma_one_named(store: Seq<MoleculeView>, name: Seq<char>, j: int)
    requires
        0 <= j < store.len(),
        store[j].name == name,
        forall|k: int| 0 <= k < store.len() && k != j ==> (#[trigger] store[k]).name != name,
    ensures
        molecules_named(store, name) == seq![store[j]],
    decreases store.len(),
{
    let prefix = store.drop_last();
    if j == store.len() - 1 {
        assert forall|k: int| 0 <= k < prefix.len() implies (#[trigger] prefix[k]).name != name by {
            assert(prefix[k] == store[k]);
        }
        lemma_none_named(prefix, name);
        assert(molecules_named(store, name) =~= seq![store[j]]);
    } else {
        assert forall|k: int| 0 <= k < prefix.len() && k != j implies (#[trigger] prefix[k]).name
            != name by {
            assert(prefix[k] == store[k]);
        }
        assert(prefix[j] == store[j]);
        lemma_one_named(prefix, name, j);
        assert(store.last() == store[store.len() - 1]);
    }
}

proof fn lemma_some_named(store: Seq<MoleculeView>, name: Seq<char>, j: int)
    requires
        0 <= j < store.len(),
        store[j].name == name,
    ensures
        molecules_named(store, name).len() >= 1,
    decreases store.len(),
{
    let prefix = store.drop_last();
    if j < store.len() - 1 {
        assert(prefix[j] == store[j]);
        lemma_some_named(prefix, name, j);
    }
}

proof fn lemma_two_named(store: Seq<MoleculeView>, name: Seq<char>, j1: int, j2: int)
    requires
        0 <= j1 < j2 < store.len(),
        store[j1].name == name,
        store[j2].name == name,
    ensures
        molecules_named(store, name).len() >= 2,
    decreases store.len(),
{
    let prefix = store.drop_last();
    assert(prefix[j1] == store[j1]);
    if j2 == store.len() - 1 {
        lemma_some_named(prefix, name, j1);
    } else {
        assert(prefix[j2] == store[j2]);
        lemma_two_named(prefix, name, j1, j2);
    }
}

/// A row whose name is carried by exactly one stored molecule becomes a
/// record that references that molecule's id.
pub proof fn reconcile_unique_name(row: AntoineCoeffCSVView, store: Seq<MoleculeView>, j: int)
    requires
        0 <= j < store.len(),
        store[j].name == row.name,
        forall|k: int| 0 <= k < store.len() && k != j ==> (#[trigger] store[k]).name != row.name,
    ensures
        reconciled(row, store) == Ok::<AntoineCoeff, ReconcileError>(
            coeff_of_row(row, store[j].molecule_id),
        ),
        reconciled(row, store)->Ok_0.mol_id == store[j].molecule_id,
{
    lemma_one_named(store, row.name, j);
}

/// A row whose name no stored molecule carries is a data error.
pub proof fn reconcile_unknown_name(row: AntoineCoeffCSVView, store: Seq<MoleculeView>)
    requires
        forall|k: int| 0 <= k < store.len() ==> (#[trigger] store[k]).name != row.name,
    ensures
        reconciled(row, store) == Err::<AntoineCoeff, ReconcileError>(
            ReconcileError::NoSuchMolecule,
        ),
{
    lemma_none_named(store, row.name);
}

/// A row whose name two stored molecules carry is an ambiguity error, and
/// at least those two are found under that name.
pub proof fn reconcile_shared_name(
    row: AntoineCoeffCSVView,
    store: Seq<MoleculeView>,
    j1: int,
    j2: int,
)
    requires
        0 <= j1 < store.len(),
        0 <= j2 < store.len(),
        j1 != j2,
        store[j1].name == row.name,
        store[j2].name == row.name,
    ensures
        reconciled(row, store) matches Err(ReconcileError::AmbiguousName { .. }),
        molecules_named(store, row.name).len() >= 2,
{
    if j1 < j2 {
        lemma_two_named(store, row.name, j1, j2);
    } else {
        lemma_two_named(store, row.name, j2, j1);
    }
}

proof fn lemma_failure_listed(rows: Seq<AntoineCoeffCSVView>, store: Seq<MoleculeView>, i: int)
    requires
        0 <= i < rows.len(),
        reconciled(rows[i], store) is Err,
    ensures
        batch_failures(rows, store).contains(
            RowError { row: i as usize, error: reconciled(rows[i], store)->Err_0 },
        ),
    decreases rows.len(),
{
    let prefix = rows.drop_last();
    let f = RowError { row: i as usize, error: reconciled(rows[i], store)->Err_0 };
    if i == rows.len() - 1 {
        assert(rows.last() == rows[i]);
        let all = batch_failures(rows, store);
        assert(all[all.len() - 1] == f);
    } else {
        assert(prefix[i] == rows[i]);
        lemma_failure_listed(prefix, store, i);
        let earlier = batch_failures(prefix, store);
        let k = choose|k: int| 0 <= k < earlier.len() && earlier[k] == f;
        let all = batch_failures(rows, store);
        assert(all[k] == f);
    }
}

/// One row that does not resolve rejects the whole batch: no record of it
/// is returned, and that row is among the failures reported.
pub proof fn failing_row_rejects_batch(
    rows: Seq<AntoineCoeffCSVView>,
    store: Seq<MoleculeView>,
    i: int,
)
    requires
        0 <= i < rows.len(),
        reconciled(rows[i], store) is Err,
    ensures
        batch_outcome(rows, store) is Err,
        batch_outcome(rows, store)->Err_0.contains(
            RowError { row: i as usize, error: reconciled(rows[i], store)->Err_0 },
        ),
{
    lemma_failure_listed(rows, store, i);
}

} // verus!
