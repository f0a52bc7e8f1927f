//! The stable tag/content encoding of the two tagged unions.
//!
//! Treatment type and diagnostic travel - in request payloads and in the
//! database's JSON columns - as a pair of a variant tag and a content
//! string, independent of any storage representation. The encoding is a
//! bijection onto the pairs the parser accepts: see the two round-trip
//! lemmas at the end.

use vstd::prelude::*;
use vstd::string::StringExecFns;
use crate::patient::{
    CardiacDiagnostic,
    Diagnostic,
    DiagnosticV,
    SncDiagnostic,
    StandardizedTreatmentType,
    TreatmentType,
};

verus! {

/// Relies on str's `==` (`PartialEq`): two string slices are equal exactly
/// when their character sequences are.
#[verifier::external_body]
fn str_eq(a: &str, b: &str) -> (r: bool)
    ensures
        r == (a@ == b@),
{
    a == b
}

/// The code of a standardized formula.
pub open spec fn formula_code(f: StandardizedTreatmentType) -> Seq<char> {
    match f {
        StandardizedTreatmentType::Periolimel1500 => "Periolimel1500"@,
        StandardizedTreatmentType::Aminomix => "Aminomix"@,
        StandardizedTreatmentType::SmofKabiven986 => "SmofKabiven986"@,
        StandardizedTreatmentType::SmofKabiven1477 => "SmofKabiven1477"@,
        StandardizedTreatmentType::NutriflexNeoperi => "NutriflexNeoperi"@,
        StandardizedTreatmentType::NutriflexOmegaSpecial => "NutriflexOmegaSpecial"@,
        StandardizedTreatmentType::Omegaflex625 => "Omegaflex625"@,
        StandardizedTreatmentType::Omegaflex1250 => "Omegaflex1250"@,
        StandardizedTreatmentType::Omegaflex1875 => "Omegaflex1875"@,
    }
}

/// The formula named by a code, if any.
pub open spec fn parse_formula(content: Seq<char>) -> Option<StandardizedTreatmentType> {
    if content == "Periolimel1500"@ {
        Some(StandardizedTreatmentType::Periolimel1500)
    } else if content == "Aminomix"@ {
        Some(StandardizedTreatmentType::Aminomix)
    } else if content == "SmofKabiven986"@ {
        Some(StandardizedTreatmentType::SmofKabiven986)
    } else if content == "SmofKabiven1477"@ {
        Some(StandardizedTreatmentType::SmofKabiven1477)
    } else if content == "NutriflexNeoperi"@ {
        Some(StandardizedTreatmentType::NutriflexNeoperi)
    } else if content == "NutriflexOmegaSpecial"@ {
        Some(StandardizedTreatmentType::NutriflexOmegaSpecial)
    } else if content == "Omegaflex625"@ {
        Some(StandardizedTreatmentType::Omegaflex625)
    } else if content == "Omegaflex1250"@ {
        Some(StandardizedTreatmentType::Omegaflex1250)
    } else if content == "Omegaflex1875"@ {
        Some(StandardizedTreatmentType::Omegaflex1875)
    } else {
        None
    }
}

/// The tag of a treatment type.
pub open spec fn treatment_tag(t: TreatmentType) -> Seq<char> {
    match t {
        TreatmentType::TailorMade => "TailorMade"@,
        TreatmentType::Standardized(_) => "Standardized"@,
    }
}

/// The content of a treatment type: the formula code, or empty.
pub open spec fn treatment_content(t: TreatmentType) -> Seq<char> {
    match t {
        TreatmentType::TailorMade => ""@,
        TreatmentType::Standardized(f) => formula_code(f),
    }
}

/// The treatment type named by a (tag, content) pair, if any.
pub open spec fn parse_treatment(tag: Seq<char>, content: Seq<char>) -> Option<TreatmentType> {
    if tag == "TailorMade"@ {
        if content == ""@ {
            Some(TreatmentType::TailorMade)
        } else {
            None
        }
    } else if tag == "Standardized"@ {
        match parse_formula(content) {
            Some(f) => Some(TreatmentType::Standardized(f)),
            None => None,
        }
    } else {
        None
    }
}

/// The code of a standardized formula, as a string.
fn formula_to_string(f: &StandardizedTreatmentType) -> (r: String)
    ensures
        r@ == formula_code(*f),
{
    match f {
        StandardizedTreatmentType::Periolimel1500 => String::from_str("Periolimel1500"),
        StandardizedTreatmentType::Aminomix => String::from_str("Aminomix"),
        StandardizedTreatmentType::SmofKabiven986 => String::from_str("SmofKabiven986"),
        StandardizedTreatmentType::SmofKabiven1477 => String::from_str("SmofKabiven1477"),
        StandardizedTreatmentType::NutriflexNeoperi => String::from_str("NutriflexNeoperi"),
        StandardizedTreatmentType::NutriflexOmegaSpecial => String::from_str(
            "NutriflexOmegaSpecial",
        ),
        StandardizedTreatmentType::Omegaflex625 => String::from_str("Omegaflex625"),
        StandardizedTreatmentType::Omegaflex1250 => String::from_str("Omegaflex1250"),
        StandardizedTreatmentType::Omegaflex1875 => String::from_str("Omegaflex1875"),
    }
}

/// Encodes a treatment type as its (tag, content) pair.
pub fn encode_treatment_type(t: &TreatmentType) -> (r: (String, String))
    ensures
        r.0@ == treatment_tag(*t),
        r.1@ == treatment_content(*t),
{
    match t {
        TreatmentType::TailorMade => (String::from_str("TailorMade"), String::from_str("")),
        TreatmentType::Standardized(f) => (String::from_str("Standardized"), formula_to_string(f)),
    }
}

/// The formula named by a code, if any.
fn decode_formula(content: &str) -> (r: Option<StandardizedTreatmentType>)
    ensures
        r == parse_formula(content@),
{
    if str_eq(content, "Periolimel1500") {
        Some(StandardizedTreatmentType::Periolimel1500)
    } else if str_eq(content, "Aminomix") {
        Some(StandardizedTreatmentType::Aminomix)
    } else if str_eq(content, "SmofKabiven986") {
        Some(StandardizedTreatmentType::SmofKabiven986)
    } else if str_eq(content, "SmofKabiven1477") {
        Some(StandardizedTreatmentType::SmofKabiven1477)
    } else if str_eq(content, "NutriflexNeoperi") {
        Some(StandardizedTreatmentType::NutriflexNeoperi)
    } else if str_eq(content, "NutriflexOmegaSpecial") {
        Some(StandardizedTreatmentType::NutriflexOmegaSpecial)
    } else if str_eq(content, "Omegaflex625") {
        Some(StandardizedTreatmentType::Omegaflex625)
    } else if str_eq(content, "Omegaflex1250") {
        Some(StandardizedTreatmentType::Omegaflex1250)
    } else if str_eq(content, "Omegaflex1875") {
        Some(StandardizedTreatmentType::Omegaflex1875)
    } else {
        None
    }
}

/// Decodes a (tag, content) pair back into a treatment type, if it names
/// one.
pub fn decode_treatment_type(tag: &str, content: &str) -> (r: Option<TreatmentType>)
    ensures
        r == parse_treatment(tag@, content@),
{
    if str_eq(tag, "TailorMade") {
        if str_eq(content, "") {
            Some(TreatmentType::TailorMade)
        } else {
            None
        }
    } else if str_eq(tag, "Standardized") {
        match decode_formula(content) {
            Some(f) => Some(TreatmentType::Standardized(f)),
            None => None,
        }
    } else {
        None
    }
}

/// The code of a cardiac diagnostic detail.
pub open spec fn cardiac_code(c: CardiacDiagnostic) -> Seq<char> {
    match c {
        CardiacDiagnostic::Cyanogenic => "Cyanogenic"@,
        CardiacDiagnostic::Other => "Other"@,
    }
}

/// The cardiac detail named by a code, if any.
pub open spec fn parse_cardiac(content: Seq<char>) -> Option<CardiacDiagnostic> {
    if content == "Cyanogenic"@ {
        Some(CardiacDiagnostic::Cyanogenic)
    } else if content == "Other"@ {
        Some(CardiacDiagnostic::Other)
    } else {
        None
    }
}

/// The code of a central-nervous-system diagnostic detail.
pub open spec fn snc_code(s: SncDiagnostic) -> Seq<char> {
    match s {
        SncDiagnostic::Malformative => "Malformative"@,
        SncDiagnostic::Acquired => "Acquired"@,
        SncDiagnostic::Trauma => "Trauma"@,
    }
}

/// The central-nervous-system detail named by a code, if any.
pub open spec fn parse_snc(content: Seq<char>) -> Option<SncDiagnostic> {
    if content == "Malformative"@ {
        Some(SncDiagnostic::Malformative)
    } else if content == "Acquired"@ {
        Some(SncDiagnostic::Acquired)
    } else if content == "Trauma"@ {
        Some(SncDiagnostic::Trauma)
    } else {
        None
    }
}

/// The tag of a diagnostic.
pub open spec fn diagnostic_tag(d: DiagnosticV) -> Seq<char> {
    match d {
        DiagnosticV::ChromosomicSyndrome(_) => "ChromosomicSyndrome"@,
        DiagnosticV::Respiratory(_) => "Respiratory"@,
        DiagnosticV::Cardiac(_) => "Cardiac"@,
        DiagnosticV::Snc(_) => "Snc"@,
        DiagnosticV::Urologic => "Urologic"@,
        DiagnosticV::MetabolicIllness => "MetabolicIllness"@,
        DiagnosticV::Digestive(_) => "Digestive"@,
        DiagnosticV::Premature(_) => "Premature"@,
        DiagnosticV::Other(_) => "Other"@,
    }
}

/// The content of a diagnostic: its free text, boolean, sub-enum code, or
/// empty.
pub open spec fn diagnostic_content(d: DiagnosticV) -> Seq<char> {
    match d {
        DiagnosticV::ChromosomicSyndrome(s) => s,
        DiagnosticV::Respiratory(b) => if b {
            "true"@
        } else {
            "false"@
        },
        DiagnosticV::Cardiac(c) => cardiac_code(c),
        DiagnosticV::Snc(s) => snc_code(s),
        DiagnosticV::Urologic => ""@,
        DiagnosticV::MetabolicIllness => ""@,
        DiagnosticV::Digestive(s) => s,
        DiagnosticV::Premature(s) => s,
        DiagnosticV::Other(s) => s,
    }
}

/// The diagnostic named by a (tag, content) pair, if any.
pub open spec fn parse_diagnostic(tag: Seq<char>, content: Seq<char>) -> Option<DiagnosticV> {
    if tag == "ChromosomicSyndrome"@ {
        Some(DiagnosticV::ChromosomicSyndrome(content))
    } else if tag == "Respiratory"@ {
        if content == "true"@ {
            Some(DiagnosticV::Respiratory(true))
        } else if content == "false"@ {
            Some(DiagnosticV::Respiratory(false))
        } else {
            None
        }
    } else if tag == "Cardiac"@ {
        match parse_cardiac(content) {
            Some(c) => Some(DiagnosticV::Cardiac(c)),
            None => None,
        }
    } else if tag == "Snc"@ {
        match parse_snc(content) {
            Some(s) => Some(DiagnosticV::Snc(s)),
            None => None,
        }
    } else if tag == "Urologic"@ {
        if content == ""@ {
            Some(DiagnosticV::Urologic)
        } else {
            None
        }
    } else if tag == "MetabolicIllness"@ {
        if content == ""@ {
            Some(DiagnosticV::MetabolicIllness)
        } else {
            None
        }
    } else if tag == "Digestive"@ {
        Some(DiagnosticV::Digestive(content))
    } else if tag == "Premature"@ {
        Some(DiagnosticV::Premature(content))
    } else if tag == "Other"@ {
        Some(DiagnosticV::Other(content))
    } else {
        None
    }
}

/// Encodes a diagnostic as its (tag, content) pair.
pub fn encode_diagnostic(d: &Diagnostic) -> (r: (String, String))
    ensures
        r.0@ == diagnostic_tag(d@),
        r.1@ == diagnostic_content(d@),
{
    match d {
        Diagnostic::ChromosomicSyndrome(s) => (
            String::from_str("ChromosomicSyndrome"),
            s.clone(),
        ),
        Diagnostic::Respiratory(b) => (
            String::from_str("Respiratory"),
            if *b {
                String::from_str("true")
            } else {
                String::from_str("false")
            },
        ),
        Diagnostic::Cardiac(c) => (
            String::from_str("Cardiac"),
            match c {
                CardiacDiagnostic::Cyanogenic => String::from_str("Cyanogenic"),
                CardiacDiagnostic::Other => String::from_str("Other"),
            },
        ),
        Diagnostic::Snc(s) => (
            String::from_str("Snc"),
            match s {
                SncDiagnostic::Malformative => String::from_str("Malformative"),
                SncDiagnostic::Acquired => String::from_str("Acquired"),
                SncDiagnostic::Trauma => String::from_str("Trauma"),
            },
        ),
        Diagnostic::Urologic => (String::from_str("Urologic"), String::from_str("")),
        Diagnostic::MetabolicIllness => (String::from_str("MetabolicIllness"), String::from_str("")),
        Diagnostic::Digestive(s) => (String::from_str("Digestive"), s.clone()),
        Diagnostic::Premature(s) => (String::from_str("Premature"), s.clone()),
        Diagnostic::Other(s) => (String::from_str("Other"), s.clone()),
    }
}

/// Decodes a (tag, content) pair back into a diagnostic, if it names one.
pub fn decode_diagnostic(tag: &str, content: &str) -> (r: Option<Diagnostic>)
    ensures
        match r {
            Some(d) => parse_diagnostic(tag@, content@) == Some(d@),
            None => parse_diagnostic(tag@, content@) is None,
        },
{
    if str_eq(tag, "ChromosomicSyndrome") {
        Some(Diagnostic::ChromosomicSyndrome(String::from_str(content)))
    } else if str_eq(tag, "Respiratory") {
        if str_eq(content, "true") {
            Some(Diagnostic::Respiratory(true))
        } else if str_eq(content, "false") {
            Some(Diagnostic::Respiratory(false))
        } else {
            None
        }
    } else if str_eq(tag, "Cardiac") {
        if str_eq(content, "Cyanogenic") {
            Some(Diagnostic::Cardiac(CardiacDiagnostic::Cyanogenic))
        } else if str_eq(content, "Other") {
            Some(Diagnostic::Cardiac(CardiacDiagnostic::Other))
        } else {
            None
        }
    } else if str_eq(tag, "Snc") {
        if str_eq(content, "Malformative") {
            Some(Diagnostic::Snc(SncDiagnostic::Malformative))
        } else if str_eq(content, "Acquired") {
            Some(Diagnostic::Snc(SncDiagnostic::Acquired))
        } else if str_eq(content, "Trauma") {
            Some(Diagnostic::Snc(SncDiagnostic::Trauma))
        } else {
            None
        }
    } else if str_eq(tag, "Urologic") {
        if str_eq(content, "") {
            Some(Diagnostic::Urologic)
        } else {
            None
        }
    } else if str_eq(tag, "MetabolicIllness") {
        if str_eq(content, "") {
            Some(Diagnostic::MetabolicIllness)
        } else {
            None
        }
    } else if str_eq(tag, "Digestive") {
        Some(Diagnostic::Digestive(String::from_str(content)))
    } else if str_eq(tag, "Premature") {
        Some(Diagnostic::Premature(String::from_str(content)))
    } else if str_eq(tag, "Other") {
        Some(Diagnostic::Other(String::from_str(content)))
    } else {
        None
    }
}

/// Each formula code parses back to its own formula.
proof fn lemma_formula_round_trip(f: StandardizedTreatmentType)
    ensures
        parse_formula(formula_code(f)) == Some(f),
{
    reveal_strlit("Periolimel1500");
    reveal_strlit("Aminomix");
    reveal_strlit("SmofKabiven986");
    reveal_strlit("SmofKabiven1477");
    reveal_strlit("NutriflexNeoperi");
    reveal_strlit("NutriflexOmegaSpecial");
    reveal_strlit("Omegaflex625");
    reveal_strlit("Omegaflex1250");
    reveal_strlit("Omegaflex1875");
    assert("Periolimel1500"@.len() == 14 && "Aminomix"@.len() == 8 && "SmofKabiven986"@.len()
        == 14 && "SmofKabiven1477"@.len() == 15 && "NutriflexNeoperi"@.len() == 16
        && "NutriflexOmegaSpecial"@.len() == 21 && "Omegaflex625"@.len() == 12
        && "Omegaflex1250"@.len() == 13 && "Omegaflex1875"@.len() == 13);
    assert("Omegaflex1250"@[10] == '2' && "Omegaflex1875"@[10] == '8');
    assert("Periolimel1500"@[0] == 'P' && "SmofKabiven986"@[0] == 'S');
    match f {
        StandardizedTreatmentType::Periolimel1500 => {
            assert(formula_code(f) == "Periolimel1500"@);
            assert(parse_formula("Periolimel1500"@) == Some(StandardizedTreatmentType::Periolimel1500));
        },
        StandardizedTreatmentType::Aminomix => {
            assert(formula_code(f) == "Aminomix"@);
            assert(parse_formula("Aminomix"@) == Some(StandardizedTreatmentType::Aminomix));
        },
        StandardizedTreatmentType::SmofKabiven986 => {
            assert(formula_code(f) == "SmofKabiven986"@);
            assert(parse_formula("SmofKabiven986"@) == Some(StandardizedTreatmentType::SmofKabiven986));
        },
        StandardizedTreatmentType::SmofKabiven1477 => {
            assert(formula_code(f) == "SmofKabiven1477"@);
            assert(parse_formula("SmofKabiven1477"@) == Some(StandardizedTreatmentType::SmofKabiven1477));
        },
        StandardizedTreatmentType::NutriflexNeoperi => {
            assert(formula_code(f) == "NutriflexNeoperi"@);
            assert(parse_formula("NutriflexNeoperi"@) == Some(StandardizedTreatmentType::NutriflexNeoperi));
        },
        StandardizedTreatmentType::NutriflexOmegaSpecial => {
            assert(formula_code(f) == "NutriflexOmegaSpecial"@);
            assert(parse_formula("NutriflexOmegaSpecial"@) == Some(StandardizedTreatmentType::NutriflexOmegaSpecial));
        },
        StandardizedTreatmentType::Omegaflex625 => {
            assert(formula_code(f) == "Omegaflex625"@);
            assert(parse_formula("Omegaflex625"@) == Some(StandardizedTreatmentType::Omegaflex625));
        },
        StandardizedTreatmentType::Omegaflex1250 => {
            assert(formula_code(f) == "Omegaflex1250"@);
            assert(parse_formula("Omegaflex1250"@) == Some(StandardizedTreatmentType::Omegaflex1250));
        },
        StandardizedTreatmentType::Omegaflex1875 => {
            assert(formula_code(f) == "Omegaflex1875"@);
            assert(parse_formula("Omegaflex1875"@) == Some(StandardizedTreatmentType::Omegaflex1875));
        },
    }
}

/// Encoding a treatment type as its (tag, content) pair and parsing the
/// pair back yields the same treatment type.
pub proof fn lemma_treatment_round_trip(t: TreatmentType)
    ensures
        parse_treatment(treatment_tag(t), treatment_content(t)) == Some(t),
{
    reveal_strlit("TailorMade");
    reveal_strlit("Standardized");
    reveal_strlit("");
    assert("TailorMade"@.len() == 10 && "Standardized"@.len() == 12 && ""@.len() == 0);
    match t {
        TreatmentType::TailorMade => {
            assert(treatment_tag(t) == "TailorMade"@ && treatment_content(t) == ""@);
            assert(parse_treatment("TailorMade"@, ""@) == Some(TreatmentType::TailorMade));
        },
        TreatmentType::Standardized(f) => {
            assert(treatment_tag(t) == "Standardized"@ && treatment_content(t) == formula_code(f));
            assert("Standardized"@ != "TailorMade"@);
            lemma_formula_round_trip(f);
            assert(parse_treatment("Standardized"@, formula_code(f)) == Some(t));
        },
    }
}

/// Each cardiac code parses back to its own detail.
proof fn lemma_cardiac_round_trip(c: CardiacDiagnostic)
    ensures
        parse_cardiac(cardiac_code(c)) == Some(c),
{
    reveal_strlit("Cyanogenic");
    reveal_strlit("Other");
    assert("Cyanogenic"@.len() == 10 && "Other"@.len() == 5);
    match c {
        CardiacDiagnostic::Cyanogenic => {
            assert(cardiac_code(c) == "Cyanogenic"@);
            assert(parse_cardiac("Cyanogenic"@) == Some(CardiacDiagnostic::Cyanogenic));
        },
        CardiacDiagnostic::Other => {
            assert(cardiac_code(c) == "Other"@);
            assert(parse_cardiac("Other"@) == Some(CardiacDiagnostic::Other));
        },
    }
}

/// Each central-nervous-system code parses back to its own detail.
proof fn lemma_snc_round_trip(s: SncDiagnostic)
    ensures
        parse_snc(snc_code(s)) == Some(s),
{
    reveal_strlit("Malformative");
    reveal_strlit("Acquired");
    reveal_strlit("Trauma");
    assert("Malformative"@.len() == 12 && "Acquired"@.len() == 8 && "Trauma"@.len() == 6);
    match s {
        SncDiagnostic::Malformative => {
            assert(snc_code(s) == "Malformative"@);
            assert(parse_snc("Malformative"@) == Some(SncDiagnostic::Malformative));
        },
        SncDiagnostic::Acquired => {
            assert(snc_code(s) == "Acquired"@);
            assert(parse_snc("Acquired"@) == Some(SncDiagnostic::Acquired));
        },
        SncDiagnostic::Trauma => {
            assert(snc_code(s) == "Trauma"@);
            assert(parse_snc("Trauma"@) == Some(SncDiagnostic::Trauma));
        },
    }
}

/// Encoding a diagnostic as its (tag, content) pair and parsing the pair
/// back yields the same diagnostic. The free-text categories carry their
/// text through unchanged, whatever it holds.
pub proof fn lemma_diagnostic_round_trip(d: DiagnosticV)
    ensures
        parse_diagnostic(diagnostic_tag(d), diagnostic_content(d)) == Some(d),
{
    reveal_strlit("ChromosomicSyndrome");
    reveal_strlit("Respiratory");
    reveal_strlit("Cardiac");
    reveal_strlit("Snc");
    reveal_strlit("Urologic");
    reveal_strlit("MetabolicIllness");
    reveal_strlit("Digestive");
    reveal_strlit("Premature");
    reveal_strlit("Other");
    reveal_strlit("true");
    reveal_strlit("false");
    reveal_strlit("");
    assert("ChromosomicSyndrome"@.len() == 19 && "Respiratory"@.len() == 11 && "Cardiac"@.len()
        == 7 && "Snc"@.len() == 3 && "Urologic"@.len() == 8 && "MetabolicIllness"@.len() == 16
        && "Digestive"@.len() == 9 && "Premature"@.len() == 9 && "Other"@.len() == 5);
    assert("true"@.len() == 4 && "false"@.len() == 5 && ""@.len() == 0);
    assert("Digestive"@[0] == 'D' && "Premature"@[0] == 'P');
    match d {
        DiagnosticV::ChromosomicSyndrome(s) => {
            assert(diagnostic_tag(d) == "ChromosomicSyndrome"@ && diagnostic_content(d) == s);
            assert(parse_diagnostic("ChromosomicSyndrome"@, s) == Some(d));
        },
        DiagnosticV::Respiratory(b) => {
            assert(diagnostic_tag(d) == "Respiratory"@);
            if b {
                assert(diagnostic_content(d) == "true"@);
                assert(parse_diagnostic("Respiratory"@, "true"@) == Some(d));
            } else {
                assert(diagnostic_content(d) == "false"@);
                assert("false"@ != "true"@);
                assert(parse_diagnostic("Respiratory"@, "false"@) == Some(d));
            }
        },
        DiagnosticV::Cardiac(c) => {
            assert(diagnostic_tag(d) == "Cardiac"@ && diagnostic_content(d) == cardiac_code(c));
            lemma_cardiac_round_trip(c);
            assert(parse_diagnostic("Cardiac"@, cardiac_code(c)) == Some(d));
        },
        DiagnosticV::Snc(s) => {
            assert(diagnostic_tag(d) == "Snc"@ && diagnostic_content(d) == snc_code(s));
            lemma_snc_round_trip(s);
            assert(parse_diagnostic("Snc"@, snc_code(s)) == Some(d));
        },
        DiagnosticV::Urologic => {
            assert(diagnostic_tag(d) == "Urologic"@ && diagnostic_content(d) == ""@);
            assert(parse_diagnostic("Urologic"@, ""@) == Some(d));
        },
        DiagnosticV::MetabolicIllness => {
            assert(diagnostic_tag(d) == "MetabolicIllness"@ && diagnostic_content(d) == ""@);
            assert(parse_diagnostic("MetabolicIllness"@, ""@) == Some(d));
        },
        DiagnosticV::Digestive(s) => {
            assert(diagnostic_tag(d) == "Digestive"@ && diagnostic_content(d) == s);
            assert(parse_diagnostic("Digestive"@, s) == Some(d));
        },
        DiagnosticV::Premature(s) => {
            assert(diagnostic_tag(d) == "Premature"@ && diagnostic_content(d) == s);
            assert(parse_diagnostic("Premature"@, s) == Some(d));
        },
        DiagnosticV::Other(s) => {
            assert(diagnostic_tag(d) == "Other"@ && diagnostic_content(d) == s);
            assert(parse_diagnostic("Other"@, s) == Some(d));
        },
    }
}

} // verus!
