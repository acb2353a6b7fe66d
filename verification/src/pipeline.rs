//! The stages in sequence, and the boundary to the external renderer that
//! prints the display document to PDF.
//!
//! The renderer is a process that only the caller can run. What is decided
//! here is what it is asked to do and what its way of ending means.

use vstd::prelude::*;
use vstd::string::*;
use crate::extract::{
    all_records_before, extract_conversation_markdown, extracted_text, extraction_of,
    lemma_extraction_is_stable, ExtractError,
};
use crate::record::{document_markdown, LineRead};
use crate::render::{display_document, render_markdown_with_highlighting, texts};

verus! {

/// How the run of the external renderer ended.
#[derive(Debug, Clone, Copy, PartialEq, Eq, Structural)]
pub enum RendererRun {
    /// The executable could not be started.
    Unreachable,
    /// The process ran and exited, with success or without.
    Exited { success: bool },
}

/// Why the external renderer produced no PDF.
#[derive(Debug, Clone, Copy, PartialEq, Eq, Structural)]
pub enum RenderError {
    /// The process could not be launched.
    Launch,
    /// The process exited with a failure status.
    Exit,
}

/// What converting lines owes: the display document of the extracted text
/// where every line is a record, else the failure of the first line that is
/// none.
pub open spec fn conversion_of(lines: Seq<LineRead>, result: Result<Seq<char>, ExtractError>) -> bool {
    match result {
        Ok(d) => {
            &&& all_records_before(lines, lines.len() as int)
            &&& d == display_document(document_markdown(lines))
        },
        Err(e) => extraction_of(lines, Err(e)),
    }
}

/// A conversion is a function of the lines: two runs on the same lines give
/// the same display document, character for character, or the same failure.
pub proof fn lemma_conversion_is_stable(
    lines: Seq<LineRead>,
    first: Result<Seq<char>, ExtractError>,
    second: Result<Seq<char>, ExtractError>,
)
    requires
        conversion_of(lines, first),
        conversion_of(lines, second),
    ensures
        first == second,
{
    let as_extraction = |r: Result<Seq<char>, ExtractError>|
        match r {
            Ok(_) => Ok::<Seq<char>, ExtractError>(document_markdown(lines)),
            Err(e) => Err::<Seq<char>, ExtractError>(e),
        };
    lemma_extraction_is_stable(lines, as_extraction(first), as_extraction(second));
}

/// The argument that names the PDF to print.
pub open spec fn print_flag(pdf: Seq<char>) -> Seq<char> {
    "--print-to-pdf="@ + pdf
}

/// The address under which the renderer opens the display document.
pub open spec fn file_address(html: Seq<char>) -> Seq<char> {
    "file://"@ + html
}

/// The arguments handed to the renderer, in order.
pub open spec fn renderer_command(html: Seq<char>, pdf: Seq<char>) -> Seq<Seq<char>> {
    seq!["--headless"@, "--disable-gpu"@, print_flag(pdf), file_address(html)]
}

/// What the way the renderer ended means: only a process that ran and exited
/// with success has produced the PDF.
pub open spec fn verdict_of(run: RendererRun) -> Result<(), RenderError> {
    match run {
        RendererRun::Unreachable => Err(RenderError::Launch),
        RendererRun::Exited { success } => if success {
            Ok(())
        } else {
            Err(RenderError::Exit)
        },
    }
}

/// Extracts the conversation from its lines and renders it to the display
/// document. The first line that is no record ends the run: nothing is
/// rendered then. Where every line is a record there is always a document.
pub fn render_conversation(lines: &Vec<LineRead>) -> (result: Result<String, ExtractError>)
    ensures
        conversion_of(lines@, extracted_text(result)),
        result is Ok <==> all_records_before(lines@, lines@.len() as int),
{
    match extract_conversation_markdown(lines) {
        Ok(markdown) => Ok(render_markdown_with_highlighting(markdown.as_str())),
        Err(e) => Err(e),
    }
}

/// The arguments for the renderer: headless, without GPU, printing to the
/// given PDF path the document at the given path, which is to be absolute.
pub fn renderer_arguments(html: &str, pdf: &str) -> (arguments: Vec<String>)
    ensures
        texts(arguments@) == renderer_command(html@, pdf@),
{
    let mut flag = String::from_str("--print-to-pdf=");
    flag.append(pdf);
    let mut address = String::from_str("file://");
    address.append(html);
    let mut arguments: Vec<String> = Vec::new();
    arguments.push(String::from_str("--headless"));
    arguments.push(String::from_str("--disable-gpu"));
    arguments.push(flag);
    arguments.push(address);
    assert(texts(arguments@) =~= renderer_command(html@, pdf@));
    arguments
}

/// Judges the run of the renderer.
pub fn renderer_verdict(run: RendererRun) -> (verdict: Result<(), RenderError>)
    ensures
        verdict == verdict_of(run),
{
    match run {
        RendererRun::Unreachable => Err(RenderError::Launch),
        RendererRun::Exited { success } => {
            if success {
                Ok(())
            } else {
                Err(RenderError::Exit)
            }
        },
    }
}

} // verus!
