use mpl_header_lint::checker::{Checker, SourceUnit};
use mpl_header_lint::header::{extract_header, trim_text, CheckError};
use mpl_header_lint::similarity::judge;
use mpl_header_lint::template::{canonical_template, help_message_text, missing_message_text};

fn real_unit(text: &str, start_offset: usize) -> SourceUnit {
    SourceUnit { text: text.as_bytes().to_vec(), start_offset, is_real_file: true }
}

/// The template with the characters at the given positions replaced by `#`,
/// a character that appears nowhere in the template, so that the edit
/// distance to the template is exactly the number of replacements.
fn template_with_edits(positions: &[usize]) -> String {
    let mut chars: Vec<char> = canonical_template().chars().collect();
    for &p in positions {
        chars[p] = '#';
    }
    chars.into_iter().collect()
}

#[test]
fn exact_template_is_acceptable() {
    let text = format!("{}\nfn main() {{}}", canonical_template());
    let decl_start = canonical_template().len() + 1;
    let mut checker = Checker::new();
    let unit = real_unit(&text, 0);
    let result = checker.check_unit(&unit, decl_start);
    assert_eq!(result, Ok(None));
}

#[test]
fn exact_template_distance_is_zero() {
    let verdict = judge(canonical_template(), canonical_template());
    assert!(verdict.acceptable);
    assert_eq!(verdict.distance, 0);
}

#[test]
fn empty_header_is_missing() {
    let mut checker = Checker::new();
    let unit = real_unit("fn main() {}", 0);
    let result = checker.check_unit(&unit, 0);
    let diag = result.unwrap().expect("a diagnostic");
    assert_eq!(diag.span_lo, 0);
    assert_eq!(diag.span_hi, 1);
    assert_eq!(diag.distance, 201);
    assert_eq!(diag.message, missing_message_text());
    assert_eq!(diag.help, help_message_text());
}

#[test]
fn distance_is_symmetric() {
    let pairs = [("kitten", "sitting"), ("", "abc"), ("flaw", "lawn"), ("same", "same")];
    for (a, b) in pairs {
        assert_eq!(judge(a, b).distance, judge(b, a).distance);
    }
}

#[test]
fn known_distance_kitten_sitting() {
    let verdict = judge("kitten", "sitting");
    assert_eq!(verdict.distance, 3);
}

#[test]
fn distance_counts_characters_not_bytes() {
    // Two two-byte characters against two one-byte ones: two substitutions.
    assert_eq!(judge("\u{e9}\u{e9}", "ab").distance, 2);
}

#[test]
fn second_check_of_same_offset_is_silent() {
    let mut checker = Checker::new();
    let unit = real_unit("fn main() {}", 40);
    let first = checker.check_unit(&unit, 40);
    assert!(first.unwrap().is_some());
    let second = checker.check_unit(&unit, 40);
    assert_eq!(second, Ok(None));
}

#[test]
fn mark_checked_reports_repeats() {
    let mut checker = Checker::new();
    assert!(!checker.mark_checked(5));
    assert!(checker.mark_checked(5));
    assert!(!checker.mark_checked(6));
}

#[test]
fn distinct_units_are_each_checked() {
    let mut checker = Checker::new();
    let first = real_unit("fn main() {}", 0);
    let second = real_unit("fn lib() {}", 100);
    assert!(checker.check_unit(&first, 0).unwrap().is_some());
    assert!(checker.check_unit(&second, 100).unwrap().is_some());
}

#[test]
fn twenty_edits_pass_twenty_one_fail() {
    // The template is 201 characters long, so the tolerance is 20 edits.
    let positions: Vec<usize> = (0..21).map(|i| 3 + 9 * i).collect();
    let at_tolerance = template_with_edits(&positions[..20]);
    let verdict = judge(&at_tolerance, canonical_template());
    assert_eq!(verdict.distance, 20);
    assert!(verdict.acceptable);

    let past_tolerance = template_with_edits(&positions[..21]);
    let verdict = judge(&past_tolerance, canonical_template());
    assert_eq!(verdict.distance, 21);
    assert!(!verdict.acceptable);
}

#[test]
fn boundary_verdicts_through_the_checker() {
    let positions: Vec<usize> = (0..21).map(|i| 3 + 9 * i).collect();
    let mut checker = Checker::new();

    let passing = format!("{}\nfn main() {{}}", template_with_edits(&positions[..20]));
    let unit = real_unit(&passing, 0);
    let decl_start = passing.len() - "fn main() {}".len();
    assert_eq!(checker.check_unit(&unit, decl_start), Ok(None));

    let failing = format!("{}\nfn main() {{}}", template_with_edits(&positions[..21]));
    let unit = real_unit(&failing, 1000);
    let decl_start = 1000 + failing.len() - "fn main() {}".len();
    let diag = checker.check_unit(&unit, decl_start).unwrap().expect("a diagnostic");
    assert_eq!(diag.distance, 21);
    assert_eq!(diag.span_lo, decl_start);
    assert_eq!(diag.span_hi, decl_start + 1);
}

#[test]
fn synthetic_units_are_skipped_and_not_recorded() {
    let mut checker = Checker::new();
    let synthetic =
        SourceUnit { text: b"fn main() {}".to_vec(), start_offset: 7, is_real_file: false };
    assert_eq!(checker.check_unit(&synthetic, 7), Ok(None));

    // The synthetic check left no trace: a real unit at the same offset is
    // still checked, and flagged.
    let real = real_unit("fn main() {}", 7);
    assert!(checker.check_unit(&real, 7).unwrap().is_some());
}

#[test]
fn copyright_comment_is_missing_with_message_and_help() {
    let text = "// Copyright Acme Corp\nfn main() {}";
    let decl_start = "// Copyright Acme Corp\n".len();
    let mut checker = Checker::new();
    let unit = real_unit(text, 0);
    let diag = checker.check_unit(&unit, decl_start).unwrap().expect("a diagnostic");
    assert_eq!(diag.span_lo, decl_start);
    assert_eq!(diag.span_hi, decl_start + 1);
    assert_eq!(diag.message, "Missing MPL license header in source file.");
    assert!(diag.help.starts_with("The license should look like this:\n"));
    assert!(diag.help.contains(canonical_template()));
    assert!(diag.distance > 20);
}

#[test]
fn one_altered_word_stays_within_tolerance() {
    // "License" written "Licence": a single substitution, well within the
    // tolerance of 20 edits.
    let altered = canonical_template().replace("License,", "Licence,");
    let verdict = judge(&altered, canonical_template());
    assert_eq!(verdict.distance, 1);
    assert!(verdict.acceptable);

    let text = format!("{}\nfn main() {{}}", altered);
    let decl_start = altered.len() + 1;
    let mut checker = Checker::new();
    let unit = real_unit(&text, 0);
    assert_eq!(checker.check_unit(&unit, decl_start), Ok(None));
}

#[test]
fn invalid_encoding_is_a_fatal_error() {
    let mut checker = Checker::new();
    let unit = SourceUnit { text: vec![0xff, 0xfe, b'f', b'n'], start_offset: 0, is_real_file: true };
    assert_eq!(checker.check_unit(&unit, 2), Err(CheckError::InvalidEncoding));
}

#[test]
fn invalid_bytes_after_the_declaration_do_not_matter() {
    let mut checker = Checker::new();
    let mut text = b"// Copyright Acme Corp\n".to_vec();
    let decl_start = text.len();
    text.push(0xff);
    let unit = SourceUnit { text, start_offset: 0, is_real_file: true };
    assert!(checker.check_unit(&unit, decl_start).unwrap().is_some());
}

#[test]
fn extract_header_trims_surrounding_whitespace() {
    let raw = b"\n\t  // a comment  \n\nfn main() {}";
    let len = raw.len() - "fn main() {}".len();
    assert_eq!(extract_header(raw, len), Ok("// a comment".to_string()));
}

#[test]
fn extract_header_of_empty_prefix_is_empty() {
    assert_eq!(extract_header(b"fn main() {}", 0), Ok(String::new()));
}

#[test]
fn extract_header_decodes_multibyte_text() {
    let text = "// caf\u{e9}\nfn main() {}";
    let len = "// caf\u{e9}\n".len();
    assert_eq!(extract_header(text.as_bytes(), len), Ok("// caf\u{e9}".to_string()));
}

#[test]
fn extract_header_rejects_invalid_utf8() {
    assert_eq!(extract_header(&[b'/', 0xc3], 2), Err(CheckError::InvalidEncoding));
}

#[test]
fn trim_removes_only_outer_whitespace() {
    assert_eq!(trim_text("  a b\tc \r\n"), "a b\tc");
    assert_eq!(trim_text("\n\n"), "");
    assert_eq!(trim_text(""), "");
    assert_eq!(trim_text("abc"), "abc");
}

#[test]
fn template_has_expected_length_and_tolerance() {
    assert_eq!(canonical_template().chars().count(), 201);
    assert_eq!(canonical_template().chars().count() / 10, 20);
}
