//! Where a problem's page lives, and how the sample output is taken out of it.

use crate::error::PipelineError;
use crate::text::followed_by;
use crate::text::decode_lossy;
use crate::text::lossy_text;
use vstd::prelude::*;

verus! {

/// The address of a problem's page: the site's contest path, the contest
/// identifier, the problem path and the problem letter, in that order.
pub open spec fn problem_url_of(contest: Seq<char>, letter: Seq<char>) -> Seq<char> {
    "https://codeforces.com/contest/"@ + contest + "/problem/"@ + letter
}

/// Builds the address of a problem's page. The two identifiers are taken as
/// they are.
pub fn problem_url(contest_number: &str, problem_letter: &str) -> (url: String)
    ensures
        url@ == problem_url_of(contest_number@, problem_letter@),
{
    let mut url = followed_by("https://codeforces.com/contest/", contest_number);
    url.append("/problem/");
    url.append(problem_letter);
    url
}

/// The user agent that the request names, without which the site turns the
/// request away as a bot's.
pub fn user_agent() -> (agent: &'static str)
    ensures
        agent@ == "Mozilla/5.0"@,
{
    "Mozilla/5.0"
}

/// The selector of the elements that hold a sample output.
pub open spec fn output_selector() -> Seq<char> {
    "div.output"@
}

/// The word that the page puts before the sample output itself.
pub open spec fn output_label() -> Seq<char> {
    "Output"@
}

/// The label is the six characters of the word `Output`.
pub proof fn lemma_output_label()
    ensures
        output_label() == seq!['O', 'u', 't', 'p', 'u', 't'],
        output_label().len() == 6,
{
    reveal_strlit("Output");
    assert(output_label() =~= seq!['O', 'u', 't', 'p', 'u', 't']);
}

/// The text of one block: its text nodes in order, with a single space
/// between each two neighbours.
pub open spec fn block_text(nodes: Seq<Seq<char>>) -> Seq<char>
    decreases nodes.len(),
{
    if nodes.len() == 0 {
        Seq::empty()
    } else if nodes.len() == 1 {
        nodes[0]
    } else {
        block_text(nodes.drop_last()) + seq![' '] + nodes.last()
    }
}

/// The text of all blocks: one block's text after the other, with nothing
/// in between.
pub open spec fn page_text(blocks: Seq<Seq<Seq<char>>>) -> Seq<char>
    decreases blocks.len(),
{
    if blocks.len() == 0 {
        Seq::empty()
    } else {
        page_text(blocks.drop_last()) + block_text(blocks.last())
    }
}

/// The sample output within the text of the blocks: what follows the label,
/// where the text begins with the label; nothing otherwise.
pub open spec fn sample_in(text: Seq<char>) -> Option<Seq<char>> {
    if output_label().is_prefix_of(text) {
        Some(text.skip(output_label().len() as int))
    } else {
        None
    }
}

/// A text made of the label and anything after it holds that as its sample.
pub proof fn law_labelled_text_holds_its_sample(rest: Seq<char>)
    ensures
        sample_in(output_label() + rest) == Some(rest),
{
    lemma_output_label();
    let text = output_label() + rest;
    assert(text.subrange(0, 6) =~= output_label());
    assert(text.skip(6) =~= rest);
}

/// A text that is shorter than the label, such as the text of no block at
/// all, holds no sample.
pub proof fn law_short_text_holds_no_sample(text: Seq<char>)
    requires
        text.len() < 6,
    ensures
        sample_in(text) is None,
        sample_in(page_text(Seq::empty())) is None,
{
    lemma_output_label();
}

/// Joins the text nodes of one block with single spaces.
pub fn join_text_nodes(nodes: &Vec<String>) -> (text: String)
    ensures
        text@ == block_text(nodes.deep_view()),
{
    let mut text = String::new();
    let mut i: usize = 0;
    while i < nodes.len()
        invariant
            i <= nodes.len(),
            text@ == block_text(nodes.deep_view().take(i as int)),
        decreases nodes.len() - i,
    {
        let ghost before = text@;
        if i > 0 {
            text.push(' ');
        }
        text.append(nodes[i].as_str());
        proof {
            let all = nodes.deep_view();
            assert(all[i as int] == nodes[i as int]@);
            assert(all.take(i + 1).drop_last() =~= all.take(i as int));
            assert(all.take(i + 1).last() == all[i as int]);
            if i > 0 {
                assert(before.push(' ') =~= before + seq![' ']);
            } else {
                assert(before + nodes[i as int]@ =~= nodes[i as int]@);
            }
        }
        i += 1;
    }
    proof {
        assert(nodes.deep_view().take(nodes.len() as int) =~= nodes.deep_view());
    }
    text
}

/// Puts the text of all blocks together.
pub fn join_blocks(blocks: &Vec<Vec<String>>) -> (text: String)
    ensures
        text@ == page_text(blocks.deep_view()),
{
    let mut text = String::new();
    let mut i: usize = 0;
    while i < blocks.len()
        invariant
            i <= blocks.len(),
            text@ == page_text(blocks.deep_view().take(i as int)),
        decreases blocks.len() - i,
    {
        let block = join_text_nodes(&blocks[i]);
        text.append(block.as_str());
        proof {
            let all = blocks.deep_view();
            assert(all[i as int] == blocks[i as int].deep_view());
            assert(all.take(i + 1).drop_last() =~= all.take(i as int));
            assert(all.take(i + 1).last() == all[i as int]);
        }
        i += 1;
    }
    proof {
        assert(blocks.deep_view().take(blocks.len() as int) =~= blocks.deep_view());
    }
    text
}

/// Takes the label off the front of the text of the blocks. Where the text
/// does not begin with the label there is no sample, and nothing is cut.
pub fn strip_output_label(text: &str) -> (sample: Option<String>)
    ensures
        match sample {
            Some(rest) => sample_in(text@) == Some(rest@),
            None => sample_in(text@) is None,
        },
{
    let label = "Output";
    proof {
        lemma_output_label();
    }
    let length: usize = text.unicode_len();
    if length < 6 {
        return None;
    }
    let mut i: usize = 0;
    while i < 6
        invariant
            i <= 6,
            6 <= length,
            length == text@.len(),
            label@ == output_label(),
            output_label().len() == 6,
            forall|k: int| 0 <= k < i ==> text@[k] == output_label()[k],
        decreases 6 - i,
    {
        if text.get_char(i) != label.get_char(i) {
            return None;
        }
        i += 1;
    }
    let rest = text.substring_char(6, length);
    proof {
        assert(text@.subrange(6, length as int) =~= text@.skip(6));
        assert(output_label() =~= text@.subrange(0, 6));
    }
    Some(rest.to_owned())
}

/// Whether `scraper::Selector::parse` accepts a selector.
pub uninterp spec fn selector_parses(css: Seq<char>) -> bool;

/// What selecting in a page yields: for each element of the parsed page
/// that matches the selector, in the order in which `Html::select` yields
/// them, the text nodes below it in the order in which `ElementRef::text`
/// yields them.
pub uninterp spec fn selected_text_nodes(html: Seq<char>, css: Seq<char>) -> Seq<Seq<Seq<char>>>;

/// Parses the selector with `scraper::Selector::parse` and the page with
/// `scraper::Html::parse_document`, walks `Html::select`, and copies out
/// what `ElementRef::text` yields for each match. Nothing is returned where
/// the selector does not parse; the page always parses. The result is a
/// function of the two texts alone.
#[verifier::external_body]
fn select_text_nodes(html: &str, css: &str) -> (found: Option<Vec<Vec<String>>>)
    ensures
        found is Some <==> selector_parses(css@),
        found matches Some(blocks) ==> blocks.deep_view() == selected_text_nodes(html@, css@),
{
    let selector = scraper::Selector::parse(css).ok()?;
    let document = scraper::Html::parse_document(html);
    let mut blocks: Vec<Vec<String>> = Vec::new();
    for element in document.select(&selector) {
        let mut nodes: Vec<String> = Vec::new();
        for node in element.text() {
            nodes.push(node.to_string());
        }
        blocks.push(nodes);
    }
    Some(blocks)
}

/// The sample output that the selected blocks hold.
///
/// The text of the blocks is put together and the label is taken off its
/// front. The page is malformed exactly when that text does not begin with
/// the label, which includes the page with no block at all.
pub fn sample_from_blocks(blocks: &Vec<Vec<String>>) -> (sample: Result<String, PipelineError>)
    ensures
        match sample {
            Ok(text) => sample_in(page_text(blocks.deep_view())) == Some(text@),
            Err(error) => error is MalformedPage && sample_in(page_text(blocks.deep_view()))
                is None,
        },
{
    let text = join_blocks(blocks);
    match strip_output_label(text.as_str()) {
        Some(rest) => Ok(rest),
        None => Err(PipelineError::MalformedPage),
    }
}

/// What extraction makes of a selection: the sample output within the
/// selected blocks, or nothing where the selector was not accepted or the
/// text of the blocks does not begin with the label.
pub open spec fn sample_of_selection(selection: Option<Seq<Seq<Seq<char>>>>) -> Option<Seq<char>> {
    match selection {
        Some(blocks) => sample_in(page_text(blocks)),
        None => None,
    }
}

/// What selecting the output blocks in a page yields.
pub open spec fn output_blocks_of(html: Seq<char>) -> Option<Seq<Seq<Seq<char>>>> {
    if selector_parses(output_selector()) {
        Some(selected_text_nodes(html, output_selector()))
    } else {
        None
    }
}

/// Whether `sample` is what extraction owes for a page: the sample output
/// where the page holds one, and the malformed page, as an error, where it
/// holds none.
pub open spec fn is_sample_of_page(sample: Result<String, PipelineError>, html: Seq<char>) -> bool {
    match sample {
        Ok(text) => sample_of_selection(output_blocks_of(html)) == Some(text@),
        Err(error) => error is MalformedPage && sample_of_selection(output_blocks_of(html))
            is None,
    }
}

/// Extracts the sample output from the text of a problem's page.
///
/// The output blocks are selected in the parsed page and handed to
/// `sample_from_blocks`. A page in which no sample is found is malformed;
/// an empty text is returned only where the blocks hold the label and
/// nothing after it.
pub fn extract_sample_output(html: &str) -> (sample: Result<String, PipelineError>)
    ensures
        is_sample_of_page(sample, html@),
{
    match select_text_nodes(html, "div.output") {
        Some(blocks) => sample_from_blocks(&blocks),
        None => Err(PipelineError::MalformedPage),
    }
}

/// How a request for a problem's page ended.
#[derive(Clone, Debug, PartialEq, Eq)]
pub enum FetchOutcome {
    /// The request could not be made at all. Carries the transport's words.
    TransportError(String),
    /// The request was made and answered: whether it succeeded, the bytes
    /// of the page, and the bytes of the error report.
    Answered { success: bool, body: Vec<u8>, error_body: Vec<u8> },
}

/// What the body of an answer is as text.
pub open spec fn page_of(body: Seq<u8>) -> Seq<char> {
    lossy_text(body)
}

/// The sample output for a fetch outcome, or the error that ends the
/// invocation.
///
/// A request that could not be made, or that the server answered without
/// success, is a failed fetch, and carries the transport's words or the
/// decoded error report: an empty sample never stands in for it. A
/// successful answer is decoded and handed to `extract_sample_output`.
pub fn expected_output(outcome: FetchOutcome) -> (sample: Result<String, PipelineError>)
    ensures
        match outcome {
            FetchOutcome::TransportError(message) => sample == Err::<String, PipelineError>(
                PipelineError::FetchFailed(message),
            ),
            FetchOutcome::Answered { success, body, error_body } => if success {
                is_sample_of_page(sample, page_of(body@))
            } else {
                sample matches Err(PipelineError::FetchFailed(report)) && report@ == lossy_text(
                    error_body@,
                )
            },
        },
{
    match outcome {
        FetchOutcome::TransportError(message) => Err(PipelineError::FetchFailed(message)),
        FetchOutcome::Answered { success, body, error_body } => {
            if success {
                let page = decode_lossy(body.as_slice());
                extract_sample_output(page.as_str())
            } else {
                Err(PipelineError::FetchFailed(decode_lossy(error_body.as_slice())))
            }
        },
    }
}

} // verus!
