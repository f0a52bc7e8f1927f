//! The patient case record and its mathematical view.
//!
//! Fractional measurements (age, weight, height, cranial perimeter, z-scores)
//! are held as exact fixed-point values: a signed count of millionths of the
//! measurement's unit. This keeps every field of the record a plain value
//! that contracts can speak about exactly.

use vstd::prelude::*;

verus! {

/// A fractional measurement, stored exactly as a signed number of millionths
/// of its unit (weight in millionths of a kilogram, height in millionths of
/// a centimeter, and so on).
#[derive(Clone, Copy, Debug, PartialEq, Eq, Structural)]
pub struct Measure {
    pub micros: i64,
}

impl View for Measure {
    type V = int;

    open spec fn view(&self) -> int {
        self.micros as int
    }
}

impl Measure {
    /// The measurement holding exactly `micros` millionths of a unit.
    pub fn from_micros(micros: i64) -> (r: Measure)
        ensures
            r@ == micros as int,
    {
        Measure { micros }
    }
}

/// The nine fixed clinic codes a prescription can come from.
#[derive(Clone, Copy, Debug, PartialEq, Eq, Structural)]
pub enum PrescriptionService {
    Chph,
    Der1,
    Enfc,
    Hadp,
    Hel,
    Nath,
    Pedh,
    Ponh,
    Sipi,
}

/// The nine fixed standardized nutritional formulas.
#[derive(Clone, Copy, Debug, PartialEq, Eq, Structural)]
pub enum StandardizedTreatmentType {
    Periolimel1500,
    Aminomix,
    SmofKabiven986,
    SmofKabiven1477,
    NutriflexNeoperi,
    NutriflexOmegaSpecial,
    Omegaflex625,
    Omegaflex1250,
    Omegaflex1875,
}

/// Treatment classification: tailor-made, or one standardized formula.
#[derive(Clone, Copy, Debug, PartialEq, Eq, Structural)]
pub enum TreatmentType {
    TailorMade,
    Standardized(StandardizedTreatmentType),
}

/// Detail of a cardiac diagnostic.
#[derive(Clone, Copy, Debug, PartialEq, Eq, Structural)]
pub enum CardiacDiagnostic {
    Cyanogenic,
    Other,
}

/// Detail of a central-nervous-system diagnostic.
#[derive(Clone, Copy, Debug, PartialEq, Eq, Structural)]
pub enum SncDiagnostic {
    Malformative,
    Acquired,
    Trauma,
}

/// Diagnostic classification: one of nine categories, several carrying
/// free-text, boolean or sub-enum detail.
#[derive(Debug, PartialEq)]
pub enum Diagnostic {
    ChromosomicSyndrome(String),
    Respiratory(bool),
    Cardiac(CardiacDiagnostic),
    Snc(SncDiagnostic),
    Urologic,
    MetabolicIllness,
    Digestive(String),
    Premature(String),
    Other(String),
}

/// The view of a [`Diagnostic`]: free text becomes a character sequence.
#[verifier::ext_equal]
pub enum DiagnosticV {
    ChromosomicSyndrome(Seq<char>),
    Respiratory(bool),
    Cardiac(CardiacDiagnostic),
    Snc(SncDiagnostic),
    Urologic,
    MetabolicIllness,
    Digestive(Seq<char>),
    Premature(Seq<char>),
    Other(Seq<char>),
}

impl View for Diagnostic {
    type V = DiagnosticV;

    open spec fn view(&self) -> DiagnosticV {
        match self {
            Diagnostic::ChromosomicSyndrome(s) => DiagnosticV::ChromosomicSyndrome(s@),
            Diagnostic::Respiratory(b) => DiagnosticV::Respiratory(*b),
            Diagnostic::Cardiac(c) => DiagnosticV::Cardiac(*c),
            Diagnostic::Snc(s) => DiagnosticV::Snc(*s),
            Diagnostic::Urologic => DiagnosticV::Urologic,
            Diagnostic::MetabolicIllness => DiagnosticV::MetabolicIllness,
            Diagnostic::Digestive(s) => DiagnosticV::Digestive(s@),
            Diagnostic::Premature(s) => DiagnosticV::Premature(s@),
            Diagnostic::Other(s) => DiagnosticV::Other(s@),
        }
    }
}

impl Clone for Diagnostic {
    fn clone(&self) -> (r: Self)
        ensures
            r == *self,
    {
        match self {
            Diagnostic::ChromosomicSyndrome(s) => Diagnostic::ChromosomicSyndrome(s.clone()),
            Diagnostic::Respiratory(b) => Diagnostic::Respiratory(*b),
            Diagnostic::Cardiac(c) => Diagnostic::Cardiac(*c),
            Diagnostic::Snc(s) => Diagnostic::Snc(*s),
            Diagnostic::Urologic => Diagnostic::Urologic,
            Diagnostic::MetabolicIllness => Diagnostic::MetabolicIllness,
            Diagnostic::Digestive(s) => Diagnostic::Digestive(s.clone()),
            Diagnostic::Premature(s) => Diagnostic::Premature(s.clone()),
            Diagnostic::Other(s) => Diagnostic::Other(s.clone()),
        }
    }
}

/// A complete case record as submitted by the front end: no id (the table
/// assigns it) and no body-mass index (it is always recomputed, never
/// trusted from caller input).
#[derive(Debug, PartialEq)]
pub struct Patient {
    pub prescription_year: i64,
    pub treatment_duration: i64,
    pub treatment_type: TreatmentType,
    pub prescription_service: PrescriptionService,
    pub nombre_de_prescriptions: i32,
    pub diagnostic: Diagnostic,
    pub name: String,
    pub age: Measure,
    pub sex: String,
    pub weight: Measure,
    pub height: Measure,
    pub cranial_perimeter: Measure,
    pub had_evaluation_nutri_state: bool,
    pub z_score_weight: Measure,
    pub z_score_height: Measure,
    pub z_score_pc: Measure,
}

/// The view of a [`Patient`]: integers, character sequences and the plain
/// enum values.
#[verifier::ext_equal]
pub struct PatientV {
    pub prescription_year: int,
    pub treatment_duration: int,
    pub treatment_type: TreatmentType,
    pub prescription_service: PrescriptionService,
    pub nombre_de_prescriptions: int,
    pub diagnostic: DiagnosticV,
    pub name: Seq<char>,
    pub age: int,
    pub sex: Seq<char>,
    pub weight: int,
    pub height: int,
    pub cranial_perimeter: int,
    pub had_evaluation_nutri_state: bool,
    pub z_score_weight: int,
    pub z_score_height: int,
    pub z_score_pc: int,
}

impl View for Patient {
    type V = PatientV;

    open spec fn view(&self) -> PatientV {
        PatientV {
            prescription_year: self.prescription_year as int,
            treatment_duration: self.treatment_duration as int,
            treatment_type: self.treatment_type,
            prescription_service: self.prescription_service,
            nombre_de_prescriptions: self.nombre_de_prescriptions as int,
            diagnostic: self.diagnostic@,
            name: self.name@,
            age: self.age@,
            sex: self.sex@,
            weight: self.weight@,
            height: self.height@,
            cranial_perimeter: self.cranial_perimeter@,
            had_evaluation_nutri_state: self.had_evaluation_nutri_state,
            z_score_weight: self.z_score_weight@,
            z_score_height: self.z_score_height@,
            z_score_pc: self.z_score_pc@,
        }
    }
}

impl Clone for Patient {
    fn clone(&self) -> (r: Self)
        ensures
            r == *self,
    {
        Patient {
            prescription_year: self.prescription_year,
            treatment_duration: self.treatment_duration,
            treatment_type: self.treatment_type,
            prescription_service: self.prescription_service,
            nombre_de_prescriptions: self.nombre_de_prescriptions,
            diagnostic: self.diagnostic.clone(),
            name: self.name.clone(),
            age: self.age,
            sex: self.sex.clone(),
            weight: self.weight,
            height: self.height,
            cranial_perimeter: self.cranial_perimeter,
            had_evaluation_nutri_state: self.had_evaluation_nutri_state,
            z_score_weight: self.z_score_weight,
            z_score_height: self.z_score_height,
            z_score_pc: self.z_score_pc,
        }
    }
}

/// A case record together with the id the table assigned to it, as handed
/// back by the front end when it asks for an overwrite.
#[derive(Debug, PartialEq)]
pub struct DbPatient {
    pub id: i64,
    pub inner: Patient,
}

/// The view of a [`DbPatient`].
#[verifier::ext_equal]
pub struct DbPatientV {
    pub id: int,
    pub inner: PatientV,
}

impl View for DbPatient {
    type V = DbPatientV;

    open spec fn view(&self) -> DbPatientV {
        DbPatientV { id: self.id as int, inner: self.inner@ }
    }
}

impl Clone for DbPatient {
    fn clone(&self) -> (r: Self)
        ensures
            r == *self,
    {
        DbPatient { id: self.id, inner: self.inner.clone() }
    }
}

/// An (id, name) pair, the projection used to populate selection lists.
#[derive(Debug, PartialEq)]
pub struct PatientName {
    pub id: i64,
    pub name: String,
}

/// The view of a [`PatientName`].
#[verifier::ext_equal]
pub struct PatientNameV {
    pub id: int,
    pub name: Seq<char>,
}

impl View for PatientName {
    type V = PatientNameV;

    open spec fn view(&self) -> PatientNameV {
        PatientNameV { id: self.id as int, name: self.name@ }
    }
}

impl Clone for PatientName {
    fn clone(&self) -> (r: Self)
        ensures
            r == *self,
    {
        PatientName { id: self.id, name: self.name.clone() }
    }
}

impl PatientName {
    /// The pair of an id and the matching record's name.
    pub fn new(id: i64, name: String) -> (r: Self)
        ensures
            r.id == id,
            r.name == name,
    {
        Self { id, name }
    }
}

} // verus!
