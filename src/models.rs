//! The stored records and the shape of an imported coefficient row.
use vstd::prelude::*;

use crate::float::Float64;

verus! {

/// One chemical species and its physical constants. The id is assigned by
/// the store on insertion; every physical property may be absent.
#[derive(Clone, Debug)]
pub struct Molecule {
    pub molecule_id: i32,
    pub name: String,
    pub formula: String,
    pub density: Option<Float64>,
    pub molar_mass: Option<Float64>,
    pub acentric_factor: Option<Float64>,
    pub melting_point: Option<Float64>,
    pub boiling_point: Option<Float64>,
    pub critical_temperature: Option<Float64>,
    pub critical_pressure: Option<Float64>,
}

/// The mathematical content of a [`Molecule`].
pub ghost struct MoleculeView {
    pub molecule_id: i32,
    pub name: Seq<char>,
    pub formula: Seq<char>,
    pub density: Option<Float64>,
    pub molar_mass: Option<Float64>,
    pub acentric_factor: Option<Float64>,
    pub melting_point: Option<Float64>,
    pub boiling_point: Option<Float64>,
    pub critical_temperature: Option<Float64>,
    pub critical_pressure: Option<Float64>,
}

impl View for Molecule {
    type V = MoleculeView;

    open spec fn view(&self) -> MoleculeView {
        MoleculeView {
            molecule_id: self.molecule_id,
            name: self.name@,
            formula: self.formula@,
            density: self.density,
            molar_mass: self.molar_mass,
            acentric_factor: self.acentric_factor,
            melting_point: self.melting_point,
            boiling_point: self.boiling_point,
            critical_temperature: self.critical_temperature,
            critical_pressure: self.critical_pressure,
        }
    }
}

/// A molecule with the given name and formula, id zero and no physical
/// property.
pub open spec fn bare_molecule(name: Seq<char>, formula: Seq<char>) -> MoleculeView {
    MoleculeView {
        molecule_id: 0,
        name,
        formula,
        density: None,
        molar_mass: None,
        acentric_factor: None,
        melting_point: None,
        boiling_point: None,
        critical_temperature: None,
        critical_pressure: None,
    }
}

impl Molecule {
    /// Builds the bare molecule of `name` and `formula`, then hands it to
    /// `mutator` and returns what that gives back.
    pub fn new_with_mutator<F>(name: String, formula: String, mutator: F) -> (r: Molecule) where
        F: Fn(Molecule) -> Molecule,
        requires
            forall|m: Molecule|
                #![trigger mutator.requires((m,))]
                m@ == bare_molecule(name@, formula@) ==> mutator.requires((m,)),
        ensures
            exists|m: Molecule|
                m@ == bare_molecule(name@, formula@) && #[trigger] mutator.ensures((m,), r),
    {
        let reval = Molecule {
            molecule_id: 0,
            name,
            formula,
            density: None,
            molar_mass: None,
            acentric_factor: None,
            melting_point: None,
            boiling_point: None,
            critical_temperature: None,
            critical_pressure: None,
        };
        mutator(reval)
    }
}

/// One row of a coefficient file: the molecule is named, not referenced
/// by id.
#[derive(Clone, Debug)]
pub struct AntoineCoeffCSV {
    pub name: String,
    pub low_temp: Float64,
    pub max_temp: Float64,
    pub a: Float64,
    pub b: Float64,
    pub c: Float64,
}

/// The mathematical content of an [`AntoineCoeffCSV`].
pub ghost struct AntoineCoeffCSVView {
    pub name: Seq<char>,
    pub low_temp: Float64,
    pub max_temp: Float64,
    pub a: Float64,
    pub b: Float64,
    pub c: Float64,
}

impl View for AntoineCoeffCSV {
    type V = AntoineCoeffCSVView;

    open spec fn view(&self) -> AntoineCoeffCSVView {
        AntoineCoeffCSVView {
            name: self.name@,
            low_temp: self.low_temp,
            max_temp: self.max_temp,
            a: self.a,
            b: self.b,
            c: self.c,
        }
    }
}

/// One fit of the Antoine equation `a - b / (c + T)` for the molecule
/// `mol_id`, valid for temperatures in `[low_temp, max_temp]`. The id is
/// assigned by the store on insertion.
#[derive(Clone, Copy, Debug, PartialEq, Eq, Structural)]
pub struct AntoineCoeff {
    pub id: i32,
    pub mol_id: i32,
    pub low_temp: Float64,
    pub max_temp: Float64,
    pub a: Float64,
    pub b: Float64,
    pub c: Float64,
}

/// The views of a sequence of molecules.
pub open spec fn molecule_views(s: Seq<Molecule>) -> Seq<MoleculeView> {
    s.map_values(|m: Molecule| m@)
}

/// The views of a sequence of coefficient rows.
pub open spec fn row_views(s: Seq<AntoineCoeffCSV>) -> Seq<AntoineCoeffCSVView> {
    s.map_values(|r: AntoineCoeffCSV| r@)
}

} // verus!
