use data_collector::codec::{
    decode_diagnostic, decode_treatment_type, encode_diagnostic, encode_treatment_type,
};
use data_collector::patient::{
    CardiacDiagnostic, Diagnostic, SncDiagnostic, StandardizedTreatmentType, TreatmentType,
};

#[test]
fn treatment_type_encodes_as_tag_and_content() {
    let standardized =
        TreatmentType::Standardized(StandardizedTreatmentType::SmofKabiven986);
    let (tag, content) = encode_treatment_type(&standardized);
    assert_eq!((tag.as_str(), content.as_str()), ("Standardized", "SmofKabiven986"));
    let (tag, content) = encode_treatment_type(&TreatmentType::TailorMade);
    assert_eq!((tag.as_str(), content.as_str()), ("TailorMade", ""));
}

#[test]
fn treatment_type_pair_decodes_back() {
    assert_eq!(
        decode_treatment_type("Standardized", "SmofKabiven986"),
        Some(TreatmentType::Standardized(StandardizedTreatmentType::SmofKabiven986))
    );
    assert_eq!(
        decode_treatment_type("Standardized", "Omegaflex1875"),
        Some(TreatmentType::Standardized(StandardizedTreatmentType::Omegaflex1875))
    );
    assert_eq!(decode_treatment_type("TailorMade", ""), Some(TreatmentType::TailorMade));
}

#[test]
fn treatment_type_rejects_unknown_pairs() {
    assert_eq!(decode_treatment_type("Bespoke", ""), None);
    assert_eq!(decode_treatment_type("TailorMade", "extra"), None);
    assert_eq!(decode_treatment_type("Standardized", "NotAFormula"), None);
}

#[test]
fn diagnostic_encodes_as_tag_and_content() {
    let (tag, content) = encode_diagnostic(&Diagnostic::Digestive(String::new()));
    assert_eq!((tag.as_str(), content.as_str()), ("Digestive", ""));
    let (tag, content) =
        encode_diagnostic(&Diagnostic::ChromosomicSyndrome("trisomy 21".to_string()));
    assert_eq!((tag.as_str(), content.as_str()), ("ChromosomicSyndrome", "trisomy 21"));
    let (tag, content) = encode_diagnostic(&Diagnostic::Respiratory(true));
    assert_eq!((tag.as_str(), content.as_str()), ("Respiratory", "true"));
    let (tag, content) = encode_diagnostic(&Diagnostic::Urologic);
    assert_eq!((tag.as_str(), content.as_str()), ("Urologic", ""));
}

#[test]
fn diagnostic_pair_decodes_back() {
    assert_eq!(
        decode_diagnostic("Digestive", ""),
        Some(Diagnostic::Digestive(String::new()))
    );
    assert_eq!(
        decode_diagnostic("ChromosomicSyndrome", "trisomy 21"),
        Some(Diagnostic::ChromosomicSyndrome("trisomy 21".to_string()))
    );
    assert_eq!(decode_diagnostic("Respiratory", "false"), Some(Diagnostic::Respiratory(false)));
    assert_eq!(
        decode_diagnostic("Cardiac", "Cyanogenic"),
        Some(Diagnostic::Cardiac(CardiacDiagnostic::Cyanogenic))
    );
    assert_eq!(decode_diagnostic("Snc", "Trauma"), Some(Diagnostic::Snc(SncDiagnostic::Trauma)));
    assert_eq!(decode_diagnostic("MetabolicIllness", ""), Some(Diagnostic::MetabolicIllness));
}

#[test]
fn diagnostic_rejects_unknown_pairs() {
    assert_eq!(decode_diagnostic("Dermatologic", ""), None);
    assert_eq!(decode_diagnostic("Respiratory", "maybe"), None);
    assert_eq!(decode_diagnostic("Cardiac", "Unlisted"), None);
    assert_eq!(decode_diagnostic("Urologic", "extra"), None);
}

#[test]
fn every_diagnostic_round_trips() {
    let cases = vec![
        Diagnostic::ChromosomicSyndrome("cri du chat".to_string()),
        Diagnostic::Respiratory(true),
        Diagnostic::Respiratory(false),
        Diagnostic::Cardiac(CardiacDiagnostic::Cyanogenic),
        Diagnostic::Cardiac(CardiacDiagnostic::Other),
        Diagnostic::Snc(SncDiagnostic::Malformative),
        Diagnostic::Snc(SncDiagnostic::Acquired),
        Diagnostic::Snc(SncDiagnostic::Trauma),
        Diagnostic::Urologic,
        Diagnostic::MetabolicIllness,
        Diagnostic::Digestive("short bowel".to_string()),
        Diagnostic::Premature("28 weeks".to_string()),
        Diagnostic::Other("note".to_string()),
    ];
    for diagnostic in cases {
        let (tag, content) = encode_diagnostic(&diagnostic);
        assert_eq!(decode_diagnostic(tag.as_str(), content.as_str()), Some(diagnostic));
    }
}
