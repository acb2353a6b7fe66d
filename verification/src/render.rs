//! Finds the fenced code regions of a lightweight-markup document, puts their
//! coloured markup in their place, transforms the whole into display markup
//! and wraps it in the document shell.
//!
//! The regions are found by the `regex` crate and the transform is the work of
//! the `pulldown-cmark` crate. The regions are rendered and substituted before
//! the transform runs, so that their markup goes through it as it is.

use vstd::prelude::*;
use vstd::string::*;
use crate::highlight::{highlight_region, highlighted_markup, text_of};

verus! {

/// One match of the fence pattern: the text it covers and its two groups.
#[derive(Debug, Clone)]
pub struct FenceCapture {
    /// The whole region, fences included, as it stands in the document.
    pub whole: String,
    /// The language tag, where the region has one.
    pub lang: Option<String>,
    /// The text between the fences.
    pub code: Option<String>,
}

/// A document taken apart at its fenced regions.
#[derive(Debug, Clone)]
pub struct FenceScan {
    /// The text outside the regions: before the first, between each two, and
    /// after the last.
    pub gaps: Vec<String>,
    /// The regions, in document order.
    pub fences: Vec<FenceCapture>,
}

/// The characters of a capture.
pub struct CaptureView {
    pub whole: Seq<char>,
    pub lang: Option<Seq<char>>,
    pub code: Option<Seq<char>>,
}

/// The characters of a scan.
pub struct ScanView {
    pub gaps: Seq<Seq<char>>,
    pub fences: Seq<CaptureView>,
}

impl View for FenceCapture {
    type V = CaptureView;

    open spec fn view(&self) -> CaptureView {
        CaptureView { whole: self.whole@, lang: text_of(self.lang), code: text_of(self.code) }
    }
}

/// The characters of each string of a sequence.
pub open spec fn texts(strings: Seq<String>) -> Seq<Seq<char>> {
    strings.map_values(|s: String| s@)
}

/// The characters of each capture of a sequence.
pub open spec fn captures(fences: Seq<FenceCapture>) -> Seq<CaptureView> {
    fences.map_values(|f: FenceCapture| f@)
}

impl View for FenceScan {
    type V = ScanView;

    open spec fn view(&self) -> ScanView {
        ScanView { gaps: texts(self.gaps@), fences: captures(self.fences@) }
    }
}

/// What matching a pattern against a text gives: `None` where the pattern is
/// no regular expression; else the pieces of the text that lie outside the
/// successive matches, and the text and the first two groups of each match.
pub uninterp spec fn pattern_scan(pattern: Seq<char>, text: Seq<char>) -> Option<ScanView>;

/// The display markup that the transform gives for a lightweight-markup text,
/// with every extension switched on.
pub uninterp spec fn cmark_html(text: Seq<char>) -> Seq<char>;

/// Compiles the pattern with `regex::Regex::new`, takes the text apart with
/// `Regex::split` and collects groups zero, one and two of every match that
/// `Regex::captures_iter` yields. The result is `None` where the pattern is
/// refused, and depends on the two arguments alone. Two things are claimed of
/// a scan beyond that: `split` yields one piece more than there are matches,
/// and the pieces with the matched texts between them are the text again.
#[verifier::external_body]
fn scan_pattern(pattern: &str, text: &str) -> (scan: Option<FenceScan>)
    ensures
        scan_of(scan) == pattern_scan(pattern@, text@),
        scan matches Some(s) ==> partitions(s@, text@),
{
    let re = regex::Regex::new(pattern).ok()?;
    let gaps = re.split(text).map(|piece| piece.to_string()).collect();
    let fences = re.captures_iter(text).map(
        |found| FenceCapture {
            whole: found[0].to_string(),
            lang: found.get(1).map(|group| group.as_str().to_string()),
            code: found.get(2).map(|group| group.as_str().to_string()),
        },
    ).collect();
    Some(FenceScan { gaps, fences })
}

/// Runs `pulldown_cmark::html::push_html` on the events of
/// `pulldown_cmark::Parser::new_ext` with `Options::all()`, into an empty
/// string. The result depends on the text alone; nothing more is claimed of
/// it.
#[verifier::external_body]
fn markdown_to_html(text: &str) -> (html: String)
    ensures
        html@ == cmark_html(text@),
{
    let mut html = String::new();
    let events = pulldown_cmark::Parser::new_ext(text, pulldown_cmark::Options::all());
    pulldown_cmark::html::push_html(&mut html, events);
    html
}

/// The characters of an optional scan.
pub open spec fn scan_of(scan: Option<FenceScan>) -> Option<ScanView> {
    match scan {
        Some(s) => Some(s@),
        None => None,
    }
}

/// The pattern of a fenced region: three backticks, an optional tag of word
/// characters, a line break, then any text, line breaks included, up to the
/// next three backticks.
pub open spec fn fence_pattern() -> Seq<char> {
    "(?s)```(\\w+)?\\n(.*?)```"@
}

/// The text of a group that may not have taken part in the match.
pub open spec fn text_or_empty(text: Option<Seq<char>>) -> Seq<char> {
    match text {
        Some(t) => t,
        None => Seq::empty(),
    }
}

/// The markup that stands for one captured region.
pub open spec fn fence_markup(fence: CaptureView) -> Seq<char> {
    highlighted_markup(fence.lang, text_or_empty(fence.code))
}

/// The markup of each region of a sequence.
pub open spec fn fences_markup(fences: Seq<CaptureView>) -> Seq<Seq<char>> {
    fences.map_values(|f: CaptureView| fence_markup(f))
}

/// The insert that follows the gap of index `i`, or nothing where there is
/// none.
pub open spec fn insert_after(inserts: Seq<Seq<char>>, i: int) -> Seq<char> {
    if 0 <= i < inserts.len() {
        inserts[i]
    } else {
        Seq::empty()
    }
}

/// The first `n` gaps, each followed by its insert.
pub open spec fn woven(gaps: Seq<Seq<char>>, inserts: Seq<Seq<char>>, n: nat) -> Seq<char>
    decreases n,
{
    if n == 0 {
        Seq::empty()
    } else {
        woven(gaps, inserts, (n - 1) as nat) + gaps[n - 1] + insert_after(inserts, n - 1)
    }
}

/// The gaps in their order, with the insert of the same index after each: the
/// text outside the regions unchanged, and each region replaced.
pub open spec fn weave(gaps: Seq<Seq<char>>, inserts: Seq<Seq<char>>) -> Seq<char> {
    woven(gaps, inserts, gaps.len())
}

/// The text that each match of a sequence covers.
pub open spec fn whole_texts(fences: Seq<CaptureView>) -> Seq<Seq<char>> {
    fences.map_values(|f: CaptureView| f.whole)
}

/// A scan takes a text apart without loss: there is one gap more than there
/// are regions, and the gaps with the regions between them, as they stood, are
/// the text.
pub open spec fn partitions(scan: ScanView, text: Seq<char>) -> bool {
    &&& scan.gaps.len() == scan.fences.len() + 1
    &&& weave(scan.gaps, whole_texts(scan.fences)) == text
}

/// The document with each of its regions replaced by the region's markup.
pub open spec fn highlighted_scan(scan: ScanView) -> Seq<char> {
    weave(scan.gaps, fences_markup(scan.fences))
}

/// What stands before the body in the document shell.
pub open spec fn shell_head() -> Seq<char> {
    "<!DOCTYPE html>\n<html>\n<head>\n<meta charset=\"utf-8\">\n<style>\nbody { font-family: Arial, sans-serif; padding: 40px; }\npre { overflow-x: auto; background-color: #2b303b; padding: 15px; border-radius: 5px; }\ncode { font-family: monospace; }\nh2 { border-bottom: 1px solid #ddd; padding-bottom: 4px; }\n</style>\n</head>\n<body>\n"@
}

/// What stands after the body in the document shell.
pub open spec fn shell_tail() -> Seq<char> {
    "\n</body>\n</html>"@
}

/// The body inside the fixed document shell.
pub open spec fn shell_around(body: Seq<char>) -> Seq<char> {
    shell_head() + body + shell_tail()
}

/// The display document of a scan: regions replaced, the whole transformed,
/// the shell around it.
pub open spec fn scan_document(scan: ScanView) -> Seq<char> {
    shell_around(cmark_html(highlighted_scan(scan)))
}

/// A text taken as a single gap, with no region in it.
pub open spec fn unbroken(text: Seq<char>) -> ScanView {
    ScanView { gaps: seq![text], fences: Seq::empty() }
}

/// The regions of a document: what the fence pattern matches in it. Should the
/// pattern be refused as a regular expression, the document has no regions.
pub open spec fn fence_scan(text: Seq<char>) -> ScanView {
    match pattern_scan(fence_pattern(), text) {
        Some(scan) => scan,
        None => unbroken(text),
    }
}

/// The display document of a lightweight-markup text.
pub open spec fn display_document(text: Seq<char>) -> Seq<char> {
    scan_document(fence_scan(text))
}

/// A text taken as a single gap is taken apart without loss.
pub proof fn lemma_unbroken_partitions(text: Seq<char>)
    ensures
        partitions(unbroken(text), text),
{
    let scan = unbroken(text);
    assert(woven(scan.gaps, whole_texts(scan.fences), 1) =~= text) by {
        reveal_with_fuel(woven, 2);
    }
}

/// A text in which no region was found reaches the transform unchanged.
pub proof fn lemma_no_region_keeps_text(scan: ScanView, text: Seq<char>)
    requires
        partitions(scan, text),
        scan.fences.len() == 0,
    ensures
        highlighted_scan(scan) == text,
{
    let marks = fences_markup(scan.fences);
    let wholes = whole_texts(scan.fences);
    assert(woven(scan.gaps, marks, 1) =~= scan.gaps[0]) by {
        reveal_with_fuel(woven, 2);
    }
    assert(woven(scan.gaps, wholes, 1) =~= scan.gaps[0]) by {
        reveal_with_fuel(woven, 2);
    }
}

/// Where one region was found, the text is the region between two gaps, and
/// highlighting replaces the region by its markup and nothing else.
pub proof fn lemma_one_region_is_replaced(scan: ScanView, text: Seq<char>)
    requires
        partitions(scan, text),
        scan.fences.len() == 1,
    ensures
        text == scan.gaps[0] + scan.fences[0].whole + scan.gaps[1],
        highlighted_scan(scan) == scan.gaps[0] + fence_markup(scan.fences[0]) + scan.gaps[1],
{
    let marks = fences_markup(scan.fences);
    let wholes = whole_texts(scan.fences);
    assert(woven(scan.gaps, marks, 2) =~= scan.gaps[0] + marks[0] + scan.gaps[1]) by {
        reveal_with_fuel(woven, 3);
    }
    assert(woven(scan.gaps, wholes, 2) =~= scan.gaps[0] + wholes[0] + scan.gaps[1]) by {
        reveal_with_fuel(woven, 3);
    }
}

/// Renders every captured region, in order.
pub fn render_fences(fences: &Vec<FenceCapture>) -> (rendered: Vec<String>)
    ensures
        texts(rendered@) == fences_markup(captures(fences@)),
{
    let mut rendered: Vec<String> = Vec::new();
    let mut i: usize = 0;
    while i < fences.len()
        invariant
            i <= fences.len(),
            rendered@.len() == i,
            forall|j: int| 0 <= j < i ==> (#[trigger] rendered@[j])@ == fence_markup(fences@[j]@),
        decreases fences.len() - i,
    {
        let fence = &fences[i];
        let markup = match &fence.code {
            Some(code) => highlight_region(&fence.lang, code.as_str()),
            None => highlight_region(&fence.lang, ""),
        };
        proof {
            assert(""@ =~= Seq::<char>::empty()) by {
                reveal_strlit("");
            }
        }
        rendered.push(markup);
        i = i + 1;
    }
    assert(texts(rendered@) =~= fences_markup(captures(fences@)));
    rendered
}

/// Puts the inserts between the gaps: each gap as it is, in order, and after
/// it the insert of the same index, where there is one.
pub fn substitute_regions(gaps: &Vec<String>, inserts: &Vec<String>) -> (text: String)
    ensures
        text@ == weave(texts(gaps@), texts(inserts@)),
{
    let mut text = String::new();
    let mut i: usize = 0;
    while i < gaps.len()
        invariant
            i <= gaps.len(),
            text@ == woven(texts(gaps@), texts(inserts@), i as nat),
        decreases gaps.len() - i,
    {
        let ghost before = text@;
        text.append(gaps[i].as_str());
        if i < inserts.len() {
            text.append(inserts[i].as_str());
        }
        proof {
            assert(texts(gaps@)[i as int] == gaps@[i as int]@);
            if i < inserts.len() {
                assert(texts(inserts@)[i as int] == inserts@[i as int]@);
            }
            assert(text@ =~= before + texts(gaps@)[i as int] + insert_after(
                texts(inserts@),
                i as int,
            ));
        }
        i = i + 1;
    }
    text
}

/// Replaces each fenced region of a scanned document by its markup and leaves
/// the text outside the regions as it is.
pub fn highlight_scan(scan: &FenceScan) -> (text: String)
    ensures
        text@ == highlighted_scan(scan@),
{
    let rendered = render_fences(&scan.fences);
    substitute_regions(&scan.gaps, &rendered)
}

/// Wraps a display-markup body in the fixed document shell.
pub fn wrap_document(body: &str) -> (document: String)
    ensures
        document@ == shell_around(body@),
{
    let mut document = String::from_str(
        "<!DOCTYPE html>\n<html>\n<head>\n<meta charset=\"utf-8\">\n<style>\nbody { font-family: Arial, sans-serif; padding: 40px; }\npre { overflow-x: auto; background-color: #2b303b; padding: 15px; border-radius: 5px; }\ncode { font-family: monospace; }\nh2 { border-bottom: 1px solid #ddd; padding-bottom: 4px; }\n</style>\n</head>\n<body>\n",
    );
    document.append(body);
    document.append("\n</body>\n</html>");
    document
}

/// Renders a scanned document: regions first, then the transform of the
/// whole, then the shell.
pub fn render_scan(scan: &FenceScan) -> (document: String)
    ensures
        document@ == scan_document(scan@),
{
    let highlighted = highlight_scan(scan);
    let body = markdown_to_html(highlighted.as_str());
    wrap_document(body.as_str())
}

/// Takes a document apart at its fenced code regions. Nothing of the text is
/// lost: the gaps and the regions, in order, are the document.
pub fn scan_fences(text: &str) -> (scan: FenceScan)
    ensures
        scan@ == fence_scan(text@),
        partitions(scan@, text@),
{
    match scan_pattern("(?s)```(\\w+)?\\n(.*?)```", text) {
        Some(found) => found,
        None => {
            let mut gaps: Vec<String> = Vec::new();
            gaps.push(String::from_str(text));
            let scan = FenceScan { gaps, fences: Vec::new() };
            proof {
                lemma_unbroken_partitions(text@);
                assert(texts(scan.gaps@) =~= seq![text@]);
                assert(captures(scan.fences@) =~= Seq::<CaptureView>::empty());
            }
            scan
        },
    }
}

/// Renders a lightweight-markup document to a complete display-markup
/// document: every fenced region replaced by its coloured markup, the whole
/// transformed, the shell around it. It never fails.
pub fn render_markdown_with_highlighting(md: &str) -> (document: String)
    ensures
        document@ == display_document(md@),
{
    let scan = scan_fences(md);
    render_scan(&scan)
}

} // verus!
