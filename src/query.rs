//! Reading stored records: the filters of the read command, and the choice
//! of the coefficient sets that apply at a temperature.
use vstd::prelude::*;

use crate::float::{le_bits, Float64};
use crate::models::{molecule_views, AntoineCoeff, Molecule, MoleculeView};

verus! {

/// Which molecules a read returns.
#[derive(Clone, Debug)]
pub enum Filter {
    /// Every stored molecule.
    All,
    /// The molecule with this id, if any.
    ById(i32),
    /// The molecules whose formula is exactly this one.
    ByFormula(String),
}

/// The read arguments name both an id and a formula; they exclude each
/// other.
#[derive(Clone, Copy, Debug, PartialEq, Eq, Structural)]
pub enum ReadArgsError {
    ConflictingFilters,
}

/// Whether `filter` lets `m` through.
pub open spec fn accepts(filter: Filter, m: MoleculeView) -> bool {
    match filter {
        Filter::All => true,
        Filter::ById(id) => m.molecule_id == id,
        Filter::ByFormula(formula) => m.formula == formula@,
    }
}

/// The records that `filter` lets through, in storage order.
pub open spec fn selected(records: Seq<MoleculeView>, filter: Filter) -> Seq<MoleculeView> {
    records.filter(|m: MoleculeView| accepts(filter, m))
}

impl Filter {
    /// The filter of a read given an optional id and an optional formula:
    /// none of them reads everything, one of them filters by it, both are
    /// refused.
    pub fn from_args(id: Option<i32>, formula: Option<String>) -> (r: Result<
        Filter,
        ReadArgsError,
    >)
        ensures
            match (id, formula) {
                (None, None) => r matches Ok(Filter::All),
                (Some(i), None) => r matches Ok(Filter::ById(j)) && i == j,
                (None, Some(f)) => r matches Ok(Filter::ByFormula(g)) && g@ == f@,
                (Some(_), Some(_)) => r == Err::<Filter, ReadArgsError>(
                    ReadArgsError::ConflictingFilters,
                ),
            },
    {
        match (id, formula) {
            (None, None) => Ok(Filter::All),
            (Some(i), None) => Ok(Filter::ById(i)),
            (None, Some(f)) => Ok(Filter::ByFormula(f)),
            (Some(_), Some(_)) => Err(ReadArgsError::ConflictingFilters),
        }
    }

    /// Whether this filter lets `m` through.
    pub fn accepts(&self, m: &Molecule) -> (r: bool)
        ensures
            r == accepts(*self, m@),
    {
        match self {
            Filter::All => true,
            Filter::ById(id) => m.molecule_id == *id,
            Filter::ByFormula(formula) => m.formula == *formula,
        }
    }
}

fn copy_molecule(m: &Molecule) -> (r: Molecule)
    ensures
        r == *m,
{
    Molecule {
        molecule_id: m.molecule_id,
        name: m.name.clone(),
        formula: m.formula.clone(),
        density: m.density,
        molar_mass: m.molar_mass,
        acentric_factor: m.acentric_factor,
        melting_point: m.melting_point,
        boiling_point: m.boiling_point,
        critical_temperature: m.critical_temperature,
        critical_pressure: m.critical_pressure,
    }
}

/// The stored records that `filter` lets through, in storage order.
pub fn select(records: &Vec<Molecule>, filter: &Filter) -> (r: Vec<Molecule>)
    ensures
        molecule_views(r@) == selected(molecule_views(records@), *filter),
{
    let ghost views = molecule_views(records@);
    let mut out: Vec<Molecule> = Vec::new();
    let mut i: usize = 0;
    while i < records.len()
        invariant
            i <= records.len(),
            views == molecule_views(records@),
            molecule_views(out@) == selected(views.subrange(0, i as int), *filter),
        decreases records.len() - i,
    {
        let ghost before = views.subrange(0, i as int);
        let ghost after = views.subrange(0, i + 1);
        assert(after.drop_last() =~= before);
        assert(after.last() == records@[i as int]@);
        reveal(Seq::filter);
        if filter.accepts(&records[i]) {
            out.push(copy_molecule(&records[i]));
        }
        assert(molecule_views(out@) =~= selected(after, *filter));
        i = i + 1;
    }
    assert(views.subrange(0, records.len() as int) =~= views);
    out
}

/// Whether the validity range of `c` holds the temperature `t`, both ends
/// included.
pub open spec fn covers(c: AntoineCoeff, t: Float64) -> bool {
    le_bits(c.low_temp.bits, t.bits) && le_bits(t.bits, c.max_temp.bits)
}

/// The test of [`covers`] at `t`, as a predicate.
pub open spec fn covering(t: Float64) -> spec_fn(AntoineCoeff) -> bool {
    |c: AntoineCoeff| covers(c, t)
}

/// The coefficient sets valid at `t`, in their order.
pub open spec fn applicable(coeffs: Seq<AntoineCoeff>, t: Float64) -> Seq<AntoineCoeff> {
    coeffs.filter(covering(t))
}

impl AntoineCoeff {
    /// Whether `t` lies in `[low_temp, max_temp]`.
    pub fn covers(&self, t: Float64) -> (r: bool)
        ensures
            r == covers(*self, t),
    {
        self.low_temp.le(&t) && t.le(&self.max_temp)
    }
}

/// The coefficient sets whose validity range holds `t`, in their order;
/// the others are left out.
pub fn select_applicable(coeffs: &Vec<AntoineCoeff>, t: Float64) -> (r: Vec<AntoineCoeff>)
    ensures
        r@ == applicable(coeffs@, t),
{
    let mut out: Vec<AntoineCoeff> = Vec::new();
    let mut i: usize = 0;
    while i < coeffs.len()
        invariant
            i <= coeffs.len(),
            out@ == applicable(coeffs@.subrange(0, i as int), t),
        decreases coeffs.len() - i,
    {
        let ghost before = coeffs@.subrange(0, i as int);
        let ghost after = coeffs@.subrange(0, i + 1);
        assert(after.drop_last() =~= before);
        reveal(Seq::filter);
        if coeffs[i].covers(t) {
            out.push(coeffs[i]);
        }
        assert(out@ =~= applicable(after, t));
        i = i + 1;
    }
    assert(coeffs@.subrange(0, coeffs.len() as int) =~= coeffs@);
    out
}

/// A read without a filter returns every stored record, unchanged and in
/// storage order.
pub proof fn read_all_returns_every_record(records: Seq<MoleculeView>)
    ensures
        selected(records, Filter::All) == records,
    decreases records.len(),
{
    reveal(Seq::filter);
    if records.len() > 0 {
        read_all_returns_every_record(records.drop_last());
        assert(records.drop_last().push(records.last()) =~= records);
    }
}

/// A read of an empty table returns nothing, whatever the filter.
pub proof fn read_of_empty_table_is_empty(filter: Filter)
    ensures
        selected(Seq::empty(), filter) == Seq::<MoleculeView>::empty(),
{
    reveal(Seq::filter);
}

/// The coefficient sets chosen at `t` are exactly those of the input whose
/// range holds `t`.
pub proof fn applicable_are_the_covering(coeffs: Seq<AntoineCoeff>, t: Float64)
    ensures
        forall|c: AntoineCoeff|
            #[trigger] applicable(coeffs, t).contains(c) <==> coeffs.contains(c) && covers(c, t),
{
    assert forall|c: AntoineCoeff|
        #[trigger] applicable(coeffs, t).contains(c) <==> coeffs.contains(c) && covers(
            c,
            t,
        ) by {
        let pred = covering(t);
        let chosen = applicable(coeffs, t);
        if chosen.contains(c) {
            coeffs.lemma_filter_contains_rev(pred, c);
            let j = choose|j: int| 0 <= j < chosen.len() && chosen[j] == c;
            coeffs.lemma_filter_pred(pred, j);
        }
        if coeffs.contains(c) && covers(c, t) {
            let i = choose|i: int| 0 <= i < coeffs.len() && coeffs[i] == c;
            coeffs.lemma_filter_contains(pred, i);
        }
    }
}

/// Both ends of a validity range belong to it: a set applies at its lowest
/// and at its highest temperature, whenever that range is not empty.
pub proof fn range_ends_are_included(c: AntoineCoeff)
    requires
        le_bits(c.low_temp.bits, c.max_temp.bits),
    ensures
        covers(c, c.low_temp),
        covers(c, c.max_temp),
{
}

} // verus!
