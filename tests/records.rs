use thermo_properties::{
    reconcile_all, resolve_molecule, select, select_applicable, AntoineCoeff, AntoineCoeffCSV,
    Filter, Float64, Molecule, ReadArgsError, ReconcileError, RowError,
};

fn f(x: f64) -> Float64 {
    Float64::from_bits(x.to_bits())
}

fn molecule(id: i32, name: &str, formula: &str) -> Molecule {
    let mut m = Molecule::new_with_mutator(name.to_string(), formula.to_string(), |m| m);
    m.molecule_id = id;
    m
}

fn row(name: &str, low: f64, max: f64, a: f64, b: f64, c: f64) -> AntoineCoeffCSV {
    AntoineCoeffCSV {
        name: name.to_string(),
        low_temp: f(low),
        max_temp: f(max),
        a: f(a),
        b: f(b),
        c: f(c),
    }
}

fn coeff(id: i32, mol_id: i32, low: f64, max: f64) -> AntoineCoeff {
    AntoineCoeff {
        id,
        mol_id,
        low_temp: f(low),
        max_temp: f(max),
        a: f(8.07131),
        b: f(1730.63),
        c: f(233.426),
    }
}

fn store() -> Vec<Molecule> {
    vec![
        molecule(1, "water", "H2O"),
        molecule(2, "ethanol", "C2H6O"),
        molecule(3, "dimethyl ether", "C2H6O"),
        molecule(4, "methane", "CH4"),
    ]
}

#[test]
fn float_order_matches_ieee() {
    let values = [
        0.0,
        -0.0,
        1.0,
        -1.0,
        0.5,
        -0.5,
        50.0,
        100.0,
        1e-310,
        -1e-310,
        f64::MAX,
        f64::MIN,
        f64::INFINITY,
        f64::NEG_INFINITY,
        f64::NAN,
        -f64::NAN,
    ];
    for x in values {
        assert_eq!(f(x).is_nan(), x.is_nan());
        for y in values {
            assert_eq!(f(x).le(&f(y)), x <= y, "{} <= {}", x, y);
        }
    }
}

#[test]
fn float_bits_round_trip() {
    assert_eq!(f(273.15).to_bits(), 273.15f64.to_bits());
    assert_eq!(f64::from_bits(f(-4.5).to_bits()), -4.5);
}

#[test]
fn mutator_adjusts_new_molecule() {
    let m = Molecule::new_with_mutator("my-mol".to_string(), "ACDC".to_string(), |mut m| {
        m.boiling_point = Some(f(42.0));
        m
    });
    assert_eq!(m.name, "my-mol");
    assert_eq!(m.formula, "ACDC");
    assert_eq!(m.molecule_id, 0);
    assert_eq!(m.boiling_point, Some(f(42.0)));
    assert_eq!(m.density, None);
    assert_eq!(m.molar_mass, None);
    assert_eq!(m.acentric_factor, None);
    assert_eq!(m.melting_point, None);
    assert_eq!(m.critical_temperature, None);
    assert_eq!(m.critical_pressure, None);
}

#[test]
fn unique_name_resolves_to_its_id() {
    assert_eq!(resolve_molecule(&"ethanol".to_string(), &store()), Ok(2));
    assert_eq!(resolve_molecule(&"methane".to_string(), &store()), Ok(4));
}

#[test]
fn unknown_name_is_an_error() {
    assert_eq!(
        resolve_molecule(&"benzene".to_string(), &store()),
        Err(ReconcileError::NoSuchMolecule)
    );
    assert_eq!(
        resolve_molecule(&"Water".to_string(), &store()),
        Err(ReconcileError::NoSuchMolecule)
    );
    assert_eq!(
        resolve_molecule(&"water".to_string(), &Vec::new()),
        Err(ReconcileError::NoSuchMolecule)
    );
}

#[test]
fn shared_name_is_ambiguous() {
    let mut s = store();
    s.push(molecule(7, "ethanol", "C2H5OH"));
    s.push(molecule(8, "ethanol", "C2H6O"));
    assert_eq!(
        resolve_molecule(&"ethanol".to_string(), &s),
        Err(ReconcileError::AmbiguousName { count: 3 })
    );
}

#[test]
fn reconciled_row_references_molecule_and_copies_numbers() {
    let r = row("ethanol", 273.0, 351.0, 8.20417, 1642.89, 230.3);
    let c = AntoineCoeff::reconcile(&r, &store()).unwrap();
    assert_eq!(c.id, 0);
    assert_eq!(c.mol_id, 2);
    assert_eq!(c.low_temp, f(273.0));
    assert_eq!(c.max_temp, f(351.0));
    assert_eq!(c.a, f(8.20417));
    assert_eq!(c.b, f(1642.89));
    assert_eq!(c.c, f(230.3));
}

#[test]
fn reconcile_reports_zero_and_many_matches() {
    let mut s = store();
    s.push(molecule(9, "water", "D2O"));
    let missing = row("argon", 0.0, 1.0, 1.0, 1.0, 1.0);
    let shared = row("water", 0.0, 1.0, 1.0, 1.0, 1.0);
    assert_eq!(
        AntoineCoeff::reconcile(&missing, &s),
        Err(ReconcileError::NoSuchMolecule)
    );
    assert_eq!(
        AntoineCoeff::reconcile(&shared, &s),
        Err(ReconcileError::AmbiguousName { count: 2 })
    );
}

#[test]
fn batch_of_resolvable_rows_yields_every_record() {
    let rows = vec![
        row("water", 274.0, 373.0, 8.07131, 1730.63, 233.426),
        row("water", 372.0, 647.0, 8.14019, 1810.94, 244.485),
        row("ethanol", 273.0, 351.0, 8.20417, 1642.89, 230.3),
    ];
    let records = reconcile_all(&rows, &store()).unwrap();
    assert_eq!(records.len(), 3);
    assert_eq!(records[0].mol_id, 1);
    assert_eq!(records[1].mol_id, 1);
    assert_eq!(records[2].mol_id, 2);
    assert_eq!(records[1].low_temp, f(372.0));
    assert_eq!(records[2].c, f(230.3));
}

#[test]
fn bad_third_row_rejects_whole_batch() {
    let rows = vec![
        row("water", 274.0, 373.0, 1.0, 2.0, 3.0),
        row("ethanol", 273.0, 351.0, 1.0, 2.0, 3.0),
        row("unobtainium", 0.0, 10.0, 1.0, 2.0, 3.0),
        row("methane", 90.0, 190.0, 1.0, 2.0, 3.0),
        row("water", 372.0, 647.0, 1.0, 2.0, 3.0),
    ];
    assert_eq!(
        reconcile_all(&rows, &store()),
        Err(vec![RowError {
            row: 2,
            error: ReconcileError::NoSuchMolecule
        }])
    );
}

#[test]
fn batch_reports_every_failing_row() {
    let mut s = store();
    s.push(molecule(5, "methane", "CH4"));
    let rows = vec![
        row("helium", 1.0, 4.0, 1.0, 2.0, 3.0),
        row("water", 274.0, 373.0, 1.0, 2.0, 3.0),
        row("methane", 90.0, 190.0, 1.0, 2.0, 3.0),
    ];
    assert_eq!(
        reconcile_all(&rows, &s),
        Err(vec![
            RowError {
                row: 0,
                error: ReconcileError::NoSuchMolecule
            },
            RowError {
                row: 2,
                error: ReconcileError::AmbiguousName { count: 2 }
            },
        ])
    );
}

#[test]
fn empty_batch_is_accepted() {
    assert_eq!(reconcile_all(&Vec::new(), &store()), Ok(Vec::new()));
}

#[test]
fn read_arguments_choose_the_filter() {
    assert!(matches!(Filter::from_args(None, None), Ok(Filter::All)));
    assert!(matches!(Filter::from_args(Some(3), None), Ok(Filter::ById(3))));
    match Filter::from_args(None, Some("CH4".to_string())) {
        Ok(Filter::ByFormula(s)) => assert_eq!(s, "CH4"),
        other => panic!("unexpected {:?}", other),
    }
    assert!(matches!(
        Filter::from_args(Some(3), Some("CH4".to_string())),
        Err(ReadArgsError::ConflictingFilters)
    ));
}

#[test]
fn read_without_filter_returns_every_imported_record() {
    let imported: Vec<Molecule> = (1..=5)
        .map(|i| {
            let mut m = molecule(i, &format!("m{}", i), &format!("C{}", i));
            m.density = Some(f(0.5 * i as f64));
            m.critical_pressure = if i % 2 == 0 { Some(f(40.0 + i as f64)) } else { None };
            m
        })
        .collect();
    let read = select(&imported, &Filter::All);
    assert_eq!(read.len(), 5);
    for (a, b) in read.iter().zip(imported.iter()) {
        assert_eq!(a.molecule_id, b.molecule_id);
        assert_eq!(a.name, b.name);
        assert_eq!(a.formula, b.formula);
        assert_eq!(a.density, b.density);
        assert_eq!(a.critical_pressure, b.critical_pressure);
    }
}

#[test]
fn read_of_emptied_table_is_empty() {
    let emptied: Vec<Molecule> = Vec::new();
    assert!(select(&emptied, &Filter::All).is_empty());
    assert!(select(&emptied, &Filter::ById(1)).is_empty());
    assert!(select(&emptied, &Filter::ByFormula("H2O".to_string())).is_empty());
}

#[test]
fn read_by_id_and_by_formula() {
    let by_id = select(&store(), &Filter::ById(3));
    assert_eq!(by_id.len(), 1);
    assert_eq!(by_id[0].name, "dimethyl ether");
    assert!(select(&store(), &Filter::ById(42)).is_empty());
    let by_formula = select(&store(), &Filter::ByFormula("C2H6O".to_string()));
    let names: Vec<&str> = by_formula.iter().map(|m| m.name.as_str()).collect();
    assert_eq!(names, vec!["ethanol", "dimethyl ether"]);
}

#[test]
fn adjacent_ranges_share_their_boundary() {
    let coeffs = vec![coeff(1, 2, 0.0, 50.0), coeff(2, 2, 50.0, 100.0)];
    let at_boundary = select_applicable(&coeffs, f(50.0));
    assert_eq!(at_boundary, coeffs);
    let inside_first = select_applicable(&coeffs, f(25.0));
    assert_eq!(inside_first, vec![coeffs[0]]);
}

#[test]
fn temperatures_outside_every_range_select_nothing() {
    let coeffs = vec![coeff(1, 2, 0.0, 50.0), coeff(2, 2, 50.0, 100.0)];
    assert!(select_applicable(&coeffs, f(100.5)).is_empty());
    assert!(select_applicable(&coeffs, f(-0.1)).is_empty());
    assert!(select_applicable(&coeffs, f(f64::NAN)).is_empty());
    assert_eq!(select_applicable(&coeffs, f(-0.0)), vec![coeffs[0]]);
    assert!(select_applicable(&Vec::new(), f(25.0)).is_empty());
}

#[test]
fn covers_includes_both_ends() {
    let c = coeff(1, 1, 10.0, 20.0);
    assert!(c.covers(f(10.0)));
    assert!(c.covers(f(20.0)));
    assert!(c.covers(f(15.0)));
    assert!(!c.covers(f(9.999)));
    assert!(!c.covers(f(20.001)));
}

#[test]
fn filter_accepts_by_field() {
    let m = molecule(2, "ethanol", "C2H6O");
    assert!(Filter::All.accepts(&m));
    assert!(Filter::ById(2).accepts(&m));
    assert!(!Filter::ById(1).accepts(&m));
    assert!(Filter::ByFormula("C2H6O".to_string()).accepts(&m));
    assert!(!Filter::ByFormula("C2H5OH".to_string()).accepts(&m));
}
