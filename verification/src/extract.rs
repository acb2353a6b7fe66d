//! Builds the lightweight-markup document from the lines of a conversation log.

use vstd::prelude::*;
use vstd::string::*;
use crate::record::{
    blank_line, block_markdown, blocks_markdown, content_markdown, document_markdown,
    heading_markdown, is_conversational, message_markdown, record_markdown, Content,
    ContentBlock, LineRead, Root,
};

verus! {

/// Which stage failed.
#[derive(Debug, Clone, Copy, PartialEq, Eq, Structural)]
pub enum ExtractErrorKind {
    /// The source could not be read.
    Io,
    /// A line is not a record of the expected shape.
    Parse,
}

/// The first failure met while reading the lines, with the index of its line.
#[derive(Debug, Clone, Copy, PartialEq, Eq, Structural)]
pub struct ExtractError {
    pub kind: ExtractErrorKind,
    pub line: usize,
}

/// The failure that a line stands for, if it is one.
pub open spec fn line_failure(line: LineRead) -> Option<ExtractErrorKind> {
    match line {
        LineRead::Record(_) => None,
        LineRead::Unreadable => Some(ExtractErrorKind::Io),
        LineRead::Malformed => Some(ExtractErrorKind::Parse),
    }
}

/// Every line before `end` is a record.
pub open spec fn all_records_before(lines: Seq<LineRead>, end: int) -> bool {
    forall|j: int| 0 <= j < end ==> (#[trigger] lines[j]) is Record
}

/// What extraction owes for a sequence of lines: the whole document where
/// every line is a record, else the failure of the first line that is none.
pub open spec fn extraction_of(lines: Seq<LineRead>, result: Result<Seq<char>, ExtractError>) -> bool {
    match result {
        Ok(doc) => all_records_before(lines, lines.len() as int) && doc == document_markdown(lines),
        Err(e) => {
            &&& e.line < lines.len()
            &&& all_records_before(lines, e.line as int)
            &&& line_failure(lines[e.line as int]) == Some(e.kind)
        },
    }
}

/// The result of extraction with the document taken by its characters.
pub open spec fn extracted_text(result: Result<String, ExtractError>) -> Result<
    Seq<char>,
    ExtractError,
> {
    match result {
        Ok(doc) => Ok(doc@),
        Err(e) => Err(e),
    }
}

/// Extraction is a function of the lines: two runs on the same lines give the
/// same document, or the same failure at the same line.
pub proof fn lemma_extraction_is_stable(
    lines: Seq<LineRead>,
    first: Result<Seq<char>, ExtractError>,
    second: Result<Seq<char>, ExtractError>,
)
    requires
        extraction_of(lines, first),
        extraction_of(lines, second),
    ensures
        first == second,
{
    match (first, second) {
        (Err(a), Err(b)) => {
            if a.line < b.line {
                assert(lines[a.line as int] is Record);
            }
            if b.line < a.line {
                assert(lines[b.line as int] is Record);
            }
        },
        (Err(a), Ok(_)) => {
            assert(lines[a.line as int] is Record);
        },
        (Ok(_), Err(b)) => {
            assert(lines[b.line as int] is Record);
        },
        (Ok(_), Ok(_)) => {},
    }
}

/// Where every line is a record, extraction does not fail.
pub proof fn lemma_records_always_extract(
    lines: Seq<LineRead>,
    result: Result<Seq<char>, ExtractError>,
)
    requires
        extraction_of(lines, result),
        all_records_before(lines, lines.len() as int),
    ensures
        result == Ok::<Seq<char>, ExtractError>(document_markdown(lines)),
{
    if let Err(e) = result {
        assert(lines[e.line as int] is Record);
    }
}

/// Whether a string holds exactly the given text.
pub fn holds_text(s: &String, text: &str) -> (same: bool)
    ensures
        same == (s@ == text@),
{
    let other = String::from_str(text);
    *s == other
}

/// Whether a record kind is one of the two that make up the conversation.
pub fn kind_is_conversational(kind: &Option<String>) -> (keep: bool)
    ensures
        keep == is_conversational(*kind),
{
    match kind {
        Some(k) => holds_text(k, "assistant") || holds_text(k, "user"),
        None => false,
    }
}

/// Appends the text of one block and a blank line, or nothing where the block
/// is not a text block or has no text.
pub fn append_block(output: &mut String, block: &ContentBlock)
    ensures
        final(output)@ == old(output)@ + block_markdown(*block),
{
    let ghost before = output@;
    if holds_text(&block.block_type, "text") {
        match &block.text {
            Some(t) => {
                output.append(t.as_str());
                output.append("\n\n");
                assert(output@ =~= before + (t@ + blank_line()));
            },
            None => {
                assert(output@ =~= before + Seq::<char>::empty());
            },
        }
    } else {
        assert(output@ =~= before + Seq::<char>::empty());
    }
}

/// Appends the markup of a message payload.
pub fn append_content(output: &mut String, content: &Content)
    ensures
        final(output)@ == old(output)@ + content_markdown(*content),
{
    let ghost before = output@;
    match content {
        Content::Text(t) => {
            output.append(t.as_str());
            output.append("\n\n");
            assert(output@ =~= before + (t@ + blank_line()));
        },
        Content::Blocks(blocks) => {
            let mut i: usize = 0;
            assert(blocks@.take(0) =~= Seq::<ContentBlock>::empty());
            assert(output@ =~= before + blocks_markdown(blocks@.take(0)));
            while i < blocks.len()
                invariant
                    i <= blocks.len(),
                    output@ == before + blocks_markdown(blocks@.take(i as int)),
                decreases blocks.len() - i,
            {
                let ghost so_far = output@;
                append_block(output, &blocks[i]);
                proof {
                    let next = blocks@.take(i + 1);
                    assert(next.drop_last() =~= blocks@.take(i as int));
                    assert(next.last() == blocks@[i as int]);
                    assert(output@ =~= before + blocks_markdown(next));
                }
                i = i + 1;
            }
            assert(blocks@.take(i as int) =~= blocks@);
        },
    }
}

/// Appends what one record contributes: for a record of the conversation that
/// has a message, a heading with its role and then its payload; else nothing.
pub fn append_record(output: &mut String, record: &Root)
    ensures
        final(output)@ == old(output)@ + record_markdown(*record),
{
    let ghost before = output@;
    if !kind_is_conversational(&record.record_type) {
        assert(output@ =~= before + Seq::<char>::empty());
        return ;
    }
    match &record.message {
        Some(m) => {
            output.append("## ");
            output.append(m.role.as_str());
            output.append("\n\n");
            assert(output@ =~= before + heading_markdown(m.role@));
            append_content(output, &m.content);
            assert(output@ =~= before + message_markdown(*m));
        },
        None => {
            assert(output@ =~= before + Seq::<char>::empty());
        },
    }
}

/// Builds the document of a conversation from its lines, in their order. The
/// first line that is no record ends the run with its failure and its index;
/// where every line is a record the run succeeds with the whole document.
pub fn extract_conversation_markdown(lines: &Vec<LineRead>) -> (result: Result<
    String,
    ExtractError,
>)
    ensures
        extraction_of(lines@, extracted_text(result)),
        result is Ok <==> all_records_before(lines@, lines@.len() as int),
{
    let mut output = String::new();
    let mut i: usize = 0;
    assert(lines@.take(0) =~= Seq::<LineRead>::empty());
    while i < lines.len()
        invariant
            i <= lines.len(),
            all_records_before(lines@, i as int),
            output@ == document_markdown(lines@.take(i as int)),
        decreases lines.len() - i,
    {
        match &lines[i] {
            LineRead::Record(record) => {
                append_record(&mut output, record);
                proof {
                    let next = lines@.take(i + 1);
                    assert(next.drop_last() =~= lines@.take(i as int));
                    assert(next.last() == lines@[i as int]);
                }
            },
            LineRead::Unreadable => {
                assert(!(lines@[i as int] is Record));
                return Err(ExtractError { kind: ExtractErrorKind::Io, line: i });
            },
            LineRead::Malformed => {
                assert(!(lines@[i as int] is Record));
                return Err(ExtractError { kind: ExtractErrorKind::Parse, line: i });
            },
        }
        i = i + 1;
    }
    assert(lines@.take(i as int) =~= lines@);
    Ok(output)
}

} // verus!
