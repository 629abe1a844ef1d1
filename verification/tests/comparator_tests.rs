use cp_cli::comparator::compare;
use cp_cli::comparator::render;
use cp_cli::comparator::render_mismatch;
use cp_cli::comparator::strip_newlines;
use cp_cli::comparator::ComparisonVerdict;
use cp_cli::comparator::MismatchRecord;

fn record(expected: char, actual: char) -> MismatchRecord {
    MismatchRecord { expected, actual }
}

#[test]
fn strip_newlines_keeps_everything_else_in_order() {
    assert_eq!(strip_newlines("a\nb\n\nc\n"), vec!['a', 'b', 'c']);
    assert_eq!(strip_newlines("\n\n"), Vec::<char>::new());
    assert_eq!(strip_newlines(""), Vec::<char>::new());
    assert_eq!(strip_newlines("a b\r\tc"), vec!['a', ' ', 'b', '\r', '\t', 'c']);
}

#[test]
fn equal_texts_pass() {
    for text in ["", "\n", "1 2 3\n", "YES\nNO\nYES\n", "a\n\nb"] {
        let result = compare(text, text);
        assert_eq!(result.verdict, ComparisonVerdict::Pass);
        assert!(result.covers_everything());
    }
}

#[test]
fn newline_placement_and_count_are_ignored() {
    let result = compare("1 2\n3 4\n", "\n1 \n2\n\n3 4");
    assert_eq!(result.verdict, ComparisonVerdict::Pass);
    assert_eq!(result.expected_len, 6);
    assert_eq!(result.actual_len, 6);
    assert_eq!(compare("abc", "a\nb\nc\n").verdict, ComparisonVerdict::Pass);
    assert_eq!(compare("\n\n\n", "").verdict, ComparisonVerdict::Pass);
}

#[test]
fn one_mismatch_at_the_last_position() {
    let result = compare("AB\nC", "ABD");
    assert_eq!(result.verdict, ComparisonVerdict::Fail(vec![record('C', 'D')]));
    assert!(!result.verdict.is_pass());
    assert_eq!(result.expected_len, 3);
    assert_eq!(result.actual_len, 3);
}

#[test]
fn only_the_overlap_is_compared() {
    let result = compare("AB", "ABCD");
    assert_eq!(result.verdict, ComparisonVerdict::Pass);
    assert_eq!(result.expected_len, 2);
    assert_eq!(result.actual_len, 4);
    assert!(!result.covers_everything());

    let longer_expected = compare("ABCD\n", "AB");
    assert_eq!(longer_expected.verdict, ComparisonVerdict::Pass);
    assert_eq!(longer_expected.expected_len, 4);
    assert_eq!(longer_expected.actual_len, 2);

    let against_nothing = compare("anything", "");
    assert_eq!(against_nothing.verdict, ComparisonVerdict::Pass);
    assert_eq!(against_nothing.actual_len, 0);
}

#[test]
fn mismatches_come_in_the_order_met() {
    let result = compare("abc\ndef", "xbc\ndyz!");
    assert_eq!(
        result.verdict,
        ComparisonVerdict::Fail(vec![record('a', 'x'), record('e', 'y'), record('f', 'z')])
    );
    assert_eq!(result.expected_len, 6);
    assert_eq!(result.actual_len, 7);
}

#[test]
fn spaces_and_case_are_not_ignored() {
    assert_eq!(
        compare("a b", "a  b").verdict,
        ComparisonVerdict::Fail(vec![record('b', ' ')])
    );
    assert_eq!(compare("yes", "Yes").verdict, ComparisonVerdict::Fail(vec![record('y', 'Y')]));
    assert_eq!(
        compare("1\r\n", "1\n").verdict,
        ComparisonVerdict::Pass
    );
    assert_eq!(
        compare("1\r\n2", "1\n2").verdict,
        ComparisonVerdict::Fail(vec![record('\r', '2')])
    );
}

#[test]
fn a_shifted_line_mismatches_from_there_on() {
    assert_eq!(
        compare("12\n34\n", "1\n234\n5").verdict,
        ComparisonVerdict::Pass
    );
    assert_eq!(
        compare("123", "23").verdict,
        ComparisonVerdict::Fail(vec![record('1', '2'), record('2', '3')])
    );
}

#[test]
fn characters_beyond_ascii_are_compared_as_characters() {
    assert_eq!(compare("é\nü", "éü").verdict, ComparisonVerdict::Pass);
    assert_eq!(
        compare("é", "e").verdict,
        ComparisonVerdict::Fail(vec![record('é', 'e')])
    );
}

#[test]
fn verdict_from_records() {
    assert_eq!(ComparisonVerdict::from_records(Vec::new()), ComparisonVerdict::Pass);
    assert!(ComparisonVerdict::from_records(Vec::new()).is_pass());
    let found = vec![record('1', '2')];
    assert_eq!(
        ComparisonVerdict::from_records(found.clone()),
        ComparisonVerdict::Fail(found)
    );
}

#[test]
fn a_mismatch_is_reported_on_one_line() {
    assert_eq!(render_mismatch(record('C', 'D')), "C not equal to D!");
    assert_eq!(render_mismatch(record(' ', '7')), "  not equal to 7!");
}

#[test]
fn a_pass_is_affirmed() {
    assert_eq!(render(&ComparisonVerdict::Pass), "Passed sample cases!");
    assert_eq!(render(&compare("4\n", "4").verdict), "Passed sample cases!");
}

#[test]
fn a_failure_lists_every_mismatch() {
    assert_eq!(render(&compare("AB\nC", "ABD").verdict), "C not equal to D!\n");
    assert_eq!(
        render(&compare("abc", "xbz").verdict),
        "a not equal to x!\nc not equal to z!\n"
    );
}
