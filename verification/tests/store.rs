use data_collector::bmi::compute_bmi;
use data_collector::patient::{
    CardiacDiagnostic, DbPatient, Diagnostic, Measure, Patient, PrescriptionService,
    StandardizedTreatmentType, TreatmentType,
};
use data_collector::store::PatientStore;

fn sample_patient(name: &str, year: i64, weight_micros: i64, height_micros: i64) -> Patient {
    Patient {
        prescription_year: year,
        treatment_duration: 14,
        treatment_type: TreatmentType::Standardized(StandardizedTreatmentType::SmofKabiven986),
        prescription_service: PrescriptionService::Chph,
        nombre_de_prescriptions: 1,
        diagnostic: Diagnostic::Digestive(String::new()),
        name: name.to_string(),
        age: Measure::from_micros(500_000),
        sex: "m".to_string(),
        weight: Measure::from_micros(weight_micros),
        height: Measure::from_micros(height_micros),
        cranial_perimeter: Measure::from_micros(38_000_000),
        had_evaluation_nutri_state: false,
        z_score_weight: Measure::from_micros(-1_250_000),
        z_score_height: Measure::from_micros(0),
        z_score_pc: Measure::from_micros(750_000),
    }
}

#[test]
fn save_then_get_returns_row() {
    let mut store = PatientStore::new();
    let patient = sample_patient("Ada", 2023, 4_200_000, 55_000_000);
    store.save(patient).unwrap();
    let row = store.get_patient(1).unwrap();
    assert_eq!(row.id, 1);
    assert_eq!(row.inner, sample_patient("Ada", 2023, 4_200_000, 55_000_000));
    assert_eq!(row.bmi, compute_bmi(Measure::from_micros(4_200_000), Measure::from_micros(55_000_000)));
    assert_eq!(row.bmi.num, 10_000_000 * 4_200_000);
    assert_eq!(row.bmi.den, 55_000_000i128 * 55_000_000);
}

#[test]
fn get_patient_missing_id_is_error() {
    let mut store = PatientStore::new();
    assert!(store.get_patient(7).is_err());
    store.save(sample_patient("Ada", 2023, 4_000_000, 52_000_000)).unwrap();
    assert!(store.get_patient(1).is_ok());
    let err = store.get_patient(2).unwrap_err();
    assert_eq!(
        err.message(),
        "database error: no rows returned by a query that expected to return at least one row"
    );
}

#[test]
fn update_then_get_returns_written_fields() {
    let mut store = PatientStore::new();
    store.save(sample_patient("Ada", 2023, 4_000_000, 52_000_000)).unwrap();
    let mut written = sample_patient("Grace", 2024, 6_500_000, 61_000_000);
    written.treatment_type = TreatmentType::TailorMade;
    written.diagnostic = Diagnostic::Cardiac(CardiacDiagnostic::Cyanogenic);
    written.had_evaluation_nutri_state = true;
    let expected = DbPatient { id: 1, inner: sample_patient("Grace", 2024, 6_500_000, 61_000_000) };
    let mut expected_inner = expected.inner;
    expected_inner.treatment_type = TreatmentType::TailorMade;
    expected_inner.diagnostic = Diagnostic::Cardiac(CardiacDiagnostic::Cyanogenic);
    expected_inner.had_evaluation_nutri_state = true;
    store.update(DbPatient { id: 1, inner: written }).unwrap();
    let row = store.get_patient(1).unwrap();
    assert_eq!(row.id, 1);
    assert_eq!(row.inner, expected_inner);
    // the body-mass index comes from the written weight and height, not from
    // anything the caller could supply
    assert_eq!(row.bmi, compute_bmi(Measure::from_micros(6_500_000), Measure::from_micros(61_000_000)));
}

#[test]
fn update_missing_id_is_silent_noop() {
    let mut store = PatientStore::new();
    store.save(sample_patient("Ada", 2023, 4_000_000, 52_000_000)).unwrap();
    let before = store.get_patient(1).unwrap();
    let r = store.update(DbPatient { id: 99, inner: sample_patient("Bea", 1999, 1, 1) });
    assert!(r.is_ok());
    assert!(store.get_patient(99).is_err());
    assert_eq!(store.get_patient(1).unwrap(), before);
    assert_eq!(store.names().unwrap().len(), 1);
}

#[test]
fn names_lists_ids_and_names_in_order() {
    let mut store = PatientStore::new();
    store.save(sample_patient("Ada", 2023, 4_000_000, 52_000_000)).unwrap();
    store.save(sample_patient("Bea", 2022, 5_000_000, 58_000_000)).unwrap();
    let names = store.names().unwrap();
    assert_eq!(names.len(), 2);
    assert_eq!((names[0].id, names[0].name.as_str()), (1, "Ada"));
    assert_eq!((names[1].id, names[1].name.as_str()), (2, "Bea"));
}

#[test]
fn names_caps_at_ten_thousand() {
    let mut store = PatientStore::new();
    for i in 0..10_001i64 {
        store.save(sample_patient("Ada", 2000 + i, 4_000_000, 52_000_000)).unwrap();
    }
    let names = store.names().unwrap();
    assert_eq!(names.len(), 10_000);
    assert_eq!(names[0].id, 1);
    assert_eq!(names[9_999].id, 10_000);
}

#[test]
fn prescription_years_caps_at_ten_thousand() {
    let mut store = PatientStore::new();
    for i in 0..10_001i64 {
        store.save(sample_patient("Ada", 2000 + i, 4_000_000, 52_000_000)).unwrap();
    }
    let years = store.prescription_years().unwrap();
    assert_eq!(years.len(), 10_000);
    assert_eq!(years[0], 2000);
    assert_eq!(years[9_999], 11_999);
}

#[test]
fn prescription_years_are_distinct_in_first_occurrence_order() {
    let mut store = PatientStore::new();
    store.save(sample_patient("Ada", 2021, 4_000_000, 52_000_000)).unwrap();
    store.save(sample_patient("Bea", 2019, 5_000_000, 58_000_000)).unwrap();
    store.save(sample_patient("Cal", 2021, 6_000_000, 60_000_000)).unwrap();
    assert_eq!(store.prescription_years().unwrap(), vec![2021, 2019]);
}

#[test]
fn get_by_prescription_year_filters_exactly() {
    let mut store = PatientStore::new();
    store.save(sample_patient("Ada", 2021, 4_000_000, 52_000_000)).unwrap();
    store.save(sample_patient("Bea", 2019, 5_000_000, 58_000_000)).unwrap();
    store.save(sample_patient("Cal", 2021, 6_000_000, 60_000_000)).unwrap();
    let hits = store.get_by_prescription_year(2021).unwrap();
    assert_eq!(hits.len(), 2);
    assert_eq!((hits[0].id, hits[0].name.as_str()), (1, "Ada"));
    assert_eq!((hits[1].id, hits[1].name.as_str()), (3, "Cal"));
    let lone = store.get_by_prescription_year(2019).unwrap();
    assert_eq!(lone.len(), 1);
    assert_eq!(lone[0].id, 2);
}

#[test]
fn get_by_prescription_year_empty_year_is_not_an_error() {
    let mut store = PatientStore::new();
    store.save(sample_patient("Ada", 2021, 4_000_000, 52_000_000)).unwrap();
    let hits = store.get_by_prescription_year(1999).unwrap();
    assert!(hits.is_empty());
}
