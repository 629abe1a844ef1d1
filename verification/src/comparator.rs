//! Character-by-character comparison of two outputs, newlines ignored.

use vstd::prelude::*;

verus! {

/// One aligned position at which the two outputs disagree.
#[derive(Clone, Copy, Debug, PartialEq, Eq)]
pub struct MismatchRecord {
    pub expected: char,
    pub actual: char,
}

/// A text with every newline character removed; the other characters keep
/// their order.
pub open spec fn without_newlines(text: Seq<char>) -> Seq<char> {
    text.filter(|c: char| c != '\n')
}

/// How many positions two flat sequences share: the length of the shorter.
pub open spec fn overlap(expected: Seq<char>, actual: Seq<char>) -> nat {
    if expected.len() <= actual.len() {
        expected.len()
    } else {
        actual.len()
    }
}

/// The pair of characters that stand at position `i` of two flat sequences.
pub open spec fn pair_at(expected: Seq<char>, actual: Seq<char>, i: int) -> MismatchRecord {
    MismatchRecord { expected: expected[i], actual: actual[i] }
}

/// The pair found at each shared position, in order.
pub open spec fn aligned_pairs(expected: Seq<char>, actual: Seq<char>) -> Seq<MismatchRecord> {
    Seq::new(overlap(expected, actual), |i: int| pair_at(expected, actual, i))
}

/// The pairs of two flat sequences whose characters differ, in the order of
/// their positions. What lies beyond the shorter sequence is never looked at.
pub open spec fn mismatches(expected: Seq<char>, actual: Seq<char>) -> Seq<MismatchRecord> {
    aligned_pairs(expected, actual).filter(|r: MismatchRecord| r.expected != r.actual)
}

/// Filtering a sequence that grew by one element keeps or drops that element
/// and leaves the rest of the result as it was.
pub proof fn lemma_filter_push<A>(s: Seq<A>, x: A, pred: spec_fn(A) -> bool)
    ensures
        s.push(x).filter(pred) == if pred(x) {
            s.filter(pred).push(x)
        } else {
            s.filter(pred)
        },
{
    reveal(Seq::filter);
    assert(s.push(x).drop_last() =~= s);
}

/// Collects the characters of `text` that are not newlines.
pub fn strip_newlines(text: &str) -> (flat: Vec<char>)
    ensures
        flat@ == without_newlines(text@),
{
    let mut flat: Vec<char> = Vec::new();
    proof {
        reveal(Seq::filter);
    }
    for c in it: text.chars()
        invariant
            it.seq() == text@,
            flat@ == without_newlines(text@.take(it.index() as int)),
    {
        proof {
            let done = text@.take(it.index() as int);
            assert(text@.take(it.index() + 1) =~= done.push(c));
            lemma_filter_push(done, c, |c: char| c != '\n');
        }
        if c != '\n' {
            flat.push(c);
        }
    }
    proof {
        assert(text@.take(text@.len() as int) =~= text@);
    }
    flat
}

/// The records that comparing two texts yields: newlines are taken out of
/// both, then the flat sequences are paired position by position.
pub open spec fn verdict_records(expected: Seq<char>, actual: Seq<char>) -> Seq<MismatchRecord> {
    mismatches(without_newlines(expected), without_newlines(actual))
}

/// Whether comparing two texts finds no mismatch.
pub open spec fn passes(expected: Seq<char>, actual: Seq<char>) -> bool {
    verdict_records(expected, actual).len() == 0
}

/// The outcome of a comparison: a pass, or the mismatches in the order in
/// which they were met.
#[derive(Clone, Debug, PartialEq, Eq)]
pub enum ComparisonVerdict {
    Pass,
    Fail(Vec<MismatchRecord>),
}

impl ComparisonVerdict {
    /// The mismatches that the verdict carries; none for a pass.
    pub open spec fn records(&self) -> Seq<MismatchRecord> {
        match self {
            ComparisonVerdict::Pass => Seq::empty(),
            ComparisonVerdict::Fail(found) => found@,
        }
    }

    /// A failure always names at least one mismatch.
    pub open spec fn well_formed(&self) -> bool {
        self is Fail ==> self.records().len() > 0
    }

    /// The verdict for a list of mismatches: a pass exactly when it is empty.
    pub fn from_records(found: Vec<MismatchRecord>) -> (verdict: ComparisonVerdict)
        ensures
            verdict.well_formed(),
            verdict.records() == found@,
            verdict is Pass <==> found@.len() == 0,
    {
        if found.len() == 0 {
            proof {
                assert(found@ =~= Seq::empty());
            }
            ComparisonVerdict::Pass
        } else {
            ComparisonVerdict::Fail(found)
        }
    }

    pub fn is_pass(&self) -> (pass: bool)
        ensures
            pass == (self is Pass),
    {
        match self {
            ComparisonVerdict::Pass => true,
            ComparisonVerdict::Fail(_) => false,
        }
    }
}

/// A verdict together with the lengths of the two flat sequences, so that a
/// caller can see when one output had characters that were never compared.
#[derive(Clone, Debug, PartialEq, Eq)]
pub struct Comparison {
    pub verdict: ComparisonVerdict,
    pub expected_len: usize,
    pub actual_len: usize,
}

impl Comparison {
    /// Whether both flat sequences had the same length, so that every
    /// character took part in the comparison.
    pub fn covers_everything(&self) -> (whole: bool)
        ensures
            whole == (self.expected_len == self.actual_len),
    {
        self.expected_len == self.actual_len
    }
}

/// Whether `result` is the comparison of two texts: its verdict carries
/// exactly their records, and is a pass exactly when there are none; its
/// lengths are those of the two texts without their newlines.
pub open spec fn is_comparison_of(
    result: Comparison,
    expected: Seq<char>,
    actual: Seq<char>,
) -> bool {
    &&& result.verdict.well_formed()
    &&& result.verdict.records() == verdict_records(expected, actual)
    &&& result.verdict is Pass <==> passes(expected, actual)
    &&& result.expected_len == without_newlines(expected).len()
    &&& result.actual_len == without_newlines(actual).len()
}

/// Compares the expected output with the actual one.
///
/// Newlines are removed from both texts. The remaining characters are paired
/// by position up to the length of the shorter sequence, and every pair that
/// differs becomes one record.
pub fn compare(expected: &str, actual: &str) -> (result: Comparison)
    ensures
        is_comparison_of(result, expected@, actual@),
{
    let want = strip_newlines(expected);
    let got = strip_newlines(actual);
    let shared: usize = if want.len() <= got.len() {
        want.len()
    } else {
        got.len()
    };
    let mut found: Vec<MismatchRecord> = Vec::new();
    let mut i: usize = 0;
    proof {
        reveal(Seq::filter);
        assert(aligned_pairs(want@, got@).take(0) =~= Seq::empty());
    }
    while i < shared
        invariant
            i <= shared,
            shared == overlap(want@, got@),
            found@ == aligned_pairs(want@, got@).take(i as int).filter(
                |r: MismatchRecord| r.expected != r.actual,
            ),
        decreases shared - i,
    {
        let pair = MismatchRecord { expected: want[i], actual: got[i] };
        proof {
            let pairs = aligned_pairs(want@, got@);
            assert(pairs[i as int] == pair);
            assert(pairs.take(i + 1) =~= pairs.take(i as int).push(pair));
            lemma_filter_push(
                pairs.take(i as int),
                pair,
                |r: MismatchRecord| r.expected != r.actual,
            );
        }
        if pair.expected != pair.actual {
            found.push(pair);
        }
        i += 1;
    }
    proof {
        let pairs = aligned_pairs(want@, got@);
        assert(pairs.take(shared as int) =~= pairs);
    }
    Comparison {
        verdict: ComparisonVerdict::from_records(found),
        expected_len: want.len(),
        actual_len: got.len(),
    }
}

/// The line that reports one mismatch.
pub open spec fn mismatch_line(record: MismatchRecord) -> Seq<char> {
    seq![record.expected] + " not equal to "@ + seq![record.actual] + "!"@
}

/// The report of a list of mismatches: one line for each, in order, each
/// ended by a newline.
pub open spec fn mismatch_report(records: Seq<MismatchRecord>) -> Seq<char>
    decreases records.len(),
{
    if records.len() == 0 {
        Seq::empty()
    } else {
        mismatch_report(records.drop_last()) + mismatch_line(records.last()) + seq!['\n']
    }
}

/// The text that stands for a verdict. For a pass it is an affirming
/// sentence, for a failure one line for each mismatch.
pub open spec fn rendering(verdict: ComparisonVerdict) -> Seq<char> {
    match verdict {
        ComparisonVerdict::Pass => "Passed sample cases!"@,
        ComparisonVerdict::Fail(found) => mismatch_report(found@),
    }
}

/// Writes the line that reports one mismatch.
pub fn render_mismatch(record: MismatchRecord) -> (line: String)
    ensures
        line@ == mismatch_line(record),
{
    let mut line = String::new();
    line.push(record.expected);
    line.append(" not equal to ");
    line.push(record.actual);
    line.append("!");
    proof {
        let start = Seq::<char>::empty().push(record.expected);
        assert(start =~= seq![record.expected]);
        assert((start + " not equal to "@).push(record.actual) =~= start + " not equal to "@
            + seq![record.actual]);
    }
    line
}

/// Writes what is shown for a verdict.
pub fn render(verdict: &ComparisonVerdict) -> (shown: String)
    ensures
        shown@ == rendering(*verdict),
{
    match verdict {
        ComparisonVerdict::Pass => "Passed sample cases!".to_owned(),
        ComparisonVerdict::Fail(found) => {
            let mut shown = String::new();
            let mut i: usize = 0;
            while i < found.len()
                invariant
                    i <= found.len(),
                    shown@ == mismatch_report(found@.take(i as int)),
                decreases found.len() - i,
            {
                let ghost before = shown@;
                let line = render_mismatch(found[i]);
                shown.append(line.as_str());
                shown.push('\n');
                proof {
                    assert(found@.take(i + 1).drop_last() =~= found@.take(i as int));
                    assert(found@.take(i + 1).last() == found@[i as int]);
                    assert((before + line@).push('\n') =~= before + line@ + seq!['\n']);
                }
                i += 1;
            }
            proof {
                assert(found@.take(found.len() as int) =~= found@);
            }
            shown
        },
    }
}

/// A filter keeps nothing exactly when no element meets the predicate.
pub proof fn lemma_filter_empty_iff<A>(s: Seq<A>, pred: spec_fn(A) -> bool)
    ensures
        s.filter(pred).len() == 0 <==> forall|i: int| 0 <= i < s.len() ==> !pred(#[trigger] s[i]),
    decreases s.len(),
{
    reveal(Seq::filter);
    if s.len() > 0 {
        let front = s.drop_last();
        lemma_filter_empty_iff(front, pred);
        if s.filter(pred).len() == 0 {
            assert forall|i: int| 0 <= i < s.len() implies !pred(#[trigger] s[i]) by {
                if i < s.len() - 1 {
                    assert(front[i] == s[i]);
                }
            }
        } else {
            if !pred(s.last()) {
                let k = choose|k: int| 0 <= k < front.len() && pred(#[trigger] front[k]);
                assert(pred(s[k]));
            }
        }
    }
}

/// Two flat sequences yield no record exactly when they agree at every
/// position that both have.
pub proof fn lemma_no_mismatch_iff_overlap_agrees(expected: Seq<char>, actual: Seq<char>)
    ensures
        mismatches(expected, actual).len() == 0 <==> forall|i: int|
            0 <= i < overlap(expected, actual) ==> expected[i] == actual[i],
{
    let pairs = aligned_pairs(expected, actual);
    let differs = |r: MismatchRecord| r.expected != r.actual;
    lemma_filter_empty_iff(pairs, differs);
    if mismatches(expected, actual).len() == 0 {
        assert forall|i: int| 0 <= i < overlap(expected, actual) implies expected[i]
            == actual[i] by {
            assert(!differs(pairs[i]));
        }
    } else {
        let k = choose|k: int| 0 <= k < pairs.len() && differs(#[trigger] pairs[k]);
        assert(expected[k] != actual[k]);
    }
}

/// Removing newlines from a text with one more newline in it, wherever it
/// stands, gives what it gave without that newline.
pub proof fn lemma_inserted_newline_vanishes(text: Seq<char>, at: int)
    requires
        0 <= at <= text.len(),
    ensures
        without_newlines(text.insert(at, '\n')) == without_newlines(text),
{
    let keep = |c: char| c != '\n';
    let head = text.take(at);
    let tail = text.skip(at);
    let newline = Seq::<char>::empty().push('\n');
    lemma_filter_push(Seq::<char>::empty(), '\n', keep);
    assert(Seq::<char>::empty().filter(keep) =~= Seq::<char>::empty()) by {
        reveal(Seq::filter);
    }
    assert(text.insert(at, '\n') =~= (head + newline) + tail);
    assert(text =~= head + tail);
    Seq::filter_distributes_over_add(head, newline, keep);
    Seq::filter_distributes_over_add(head + newline, tail, keep);
    Seq::filter_distributes_over_add(head, tail, keep);
    assert(head.filter(keep) + newline.filter(keep) =~= head.filter(keep));
}

/// Every record of a comparison holds two characters that differ, and there
/// are no more records than positions that both flat sequences have.
pub proof fn law_records_are_mismatches(expected: Seq<char>, actual: Seq<char>)
    ensures
        verdict_records(expected, actual).len() <= overlap(
            without_newlines(expected),
            without_newlines(actual),
        ),
        forall|i: int|
            0 <= i < verdict_records(expected, actual).len() ==> (#[trigger] verdict_records(
                expected,
                actual,
            )[i]).expected != verdict_records(expected, actual)[i].actual,
{
    let pairs = aligned_pairs(without_newlines(expected), without_newlines(actual));
    let differs = |r: MismatchRecord| r.expected != r.actual;
    pairs.lemma_filter_len(differs);
    assert forall|i: int| 0 <= i < pairs.filter(differs).len() implies differs(
        #[trigger] pairs.filter(differs)[i],
    ) by {
        pairs.lemma_filter_pred(differs, i);
    }
}

/// A text compared with itself passes.
pub proof fn law_equal_texts_pass(text: Seq<char>)
    ensures
        passes(text, text),
{
    let flat = without_newlines(text);
    lemma_no_mismatch_iff_overlap_agrees(flat, flat);
}

/// Two texts that are the same once their newlines are taken out pass,
/// however many newlines each has and wherever they stand.
pub proof fn law_newlines_are_ignored(expected: Seq<char>, actual: Seq<char>)
    requires
        without_newlines(expected) == without_newlines(actual),
    ensures
        passes(expected, actual),
{
    lemma_no_mismatch_iff_overlap_agrees(without_newlines(expected), without_newlines(actual));
}

/// One more newline on either side, at any position, changes no record.
pub proof fn law_newline_placement_is_irrelevant(
    expected: Seq<char>,
    actual: Seq<char>,
    at_expected: int,
    at_actual: int,
)
    requires
        0 <= at_expected <= expected.len(),
        0 <= at_actual <= actual.len(),
    ensures
        verdict_records(expected.insert(at_expected, '\n'), actual) == verdict_records(
            expected,
            actual,
        ),
        verdict_records(expected, actual.insert(at_actual, '\n')) == verdict_records(
            expected,
            actual,
        ),
        verdict_records(expected.insert(at_expected, '\n'), actual.insert(at_actual, '\n'))
            == verdict_records(expected, actual),
{
    lemma_inserted_newline_vanishes(expected, at_expected);
    lemma_inserted_newline_vanishes(actual, at_actual);
}

/// Only the positions that both flat sequences have are compared: cutting
/// the longer one down to the length of the shorter changes no record.
pub proof fn law_only_the_overlap_is_compared(expected: Seq<char>, actual: Seq<char>)
    ensures
        ({
            let want = without_newlines(expected);
            let got = without_newlines(actual);
            let shared = overlap(want, got) as int;
            verdict_records(expected, actual) == mismatches(want.take(shared), got.take(shared))
        }),
{
    let want = without_newlines(expected);
    let got = without_newlines(actual);
    let shared = overlap(want, got) as int;
    assert(aligned_pairs(want, got) =~= aligned_pairs(want.take(shared), got.take(shared)));
}

/// Where one flat sequence is the beginning of the other, the comparison
/// passes: what the longer one has beyond the shorter is never looked at.
pub proof fn law_prefix_passes(expected: Seq<char>, actual: Seq<char>)
    requires
        without_newlines(expected).is_prefix_of(without_newlines(actual)) || without_newlines(
            actual,
        ).is_prefix_of(without_newlines(expected)),
    ensures
        passes(expected, actual),
{
    lemma_no_mismatch_iff_overlap_agrees(without_newlines(expected), without_newlines(actual));
}

} // verus!
