//! The line records of a conversation log and the lightweight markup that each
//! of them stands for.

use vstd::prelude::*;

verus! {

/// One typed fragment of a multi-part message.
#[derive(Debug, Clone)]
pub struct ContentBlock {
    pub block_type: String,
    pub text: Option<String>,
}

/// The payload of a message: one plain string, or a sequence of blocks.
#[derive(Debug, Clone)]
pub enum Content {
    Text(String),
    Blocks(Vec<ContentBlock>),
}

/// A message with its role, which is used verbatim as a section heading.
#[derive(Debug, Clone)]
pub struct Message {
    pub role: String,
    pub content: Content,
}

/// One parsed line of the log.
#[derive(Debug, Clone)]
pub struct Root {
    pub record_type: Option<String>,
    pub message: Option<Message>,
}

/// What reading and parsing one line of the source gave.
#[derive(Debug, Clone)]
pub enum LineRead {
    /// The line is a record.
    Record(Root),
    /// The source could not be read at this line.
    Unreadable,
    /// The line is not a record of the expected shape.
    Malformed,
}

/// The blank line that ends every emitted piece.
pub open spec fn blank_line() -> Seq<char> {
    "\n\n"@
}

/// The record kinds that are part of the conversation.
pub open spec fn is_conversational(kind: Option<String>) -> bool {
    kind matches Some(k) && (k@ == "assistant"@ || k@ == "user"@)
}

/// A block is emitted when its tag is `text` and its text is present.
pub open spec fn block_is_emitted(block: ContentBlock) -> bool {
    block.block_type@ == "text"@ && block.text is Some
}

/// The markup of one block: its text and a blank line, or nothing.
pub open spec fn block_markdown(block: ContentBlock) -> Seq<char> {
    if block.block_type@ == "text"@ {
        match block.text {
            Some(t) => t@ + blank_line(),
            None => Seq::empty(),
        }
    } else {
        Seq::empty()
    }
}

/// The markup of a sequence of blocks, in their order.
pub open spec fn blocks_markdown(blocks: Seq<ContentBlock>) -> Seq<char>
    decreases blocks.len(),
{
    if blocks.len() == 0 {
        Seq::empty()
    } else {
        blocks_markdown(blocks.drop_last()) + block_markdown(blocks.last())
    }
}

/// The section heading of a message: its role after `## `, then a blank line.
pub open spec fn heading_markdown(role: Seq<char>) -> Seq<char> {
    "## "@ + role + blank_line()
}

/// The markup of a message payload.
pub open spec fn content_markdown(content: Content) -> Seq<char> {
    match content {
        Content::Text(t) => t@ + blank_line(),
        Content::Blocks(blocks) => blocks_markdown(blocks@),
    }
}

/// The markup of a message: heading, then payload.
pub open spec fn message_markdown(message: Message) -> Seq<char> {
    heading_markdown(message.role@) + content_markdown(message.content)
}

/// The markup of one record. A record of another kind, or without a message,
/// stands for nothing.
pub open spec fn record_markdown(record: Root) -> Seq<char> {
    if is_conversational(record.record_type) {
        match record.message {
            Some(m) => message_markdown(m),
            None => Seq::empty(),
        }
    } else {
        Seq::empty()
    }
}

/// The markup of one line that was read.
pub open spec fn line_markdown(line: LineRead) -> Seq<char> {
    match line {
        LineRead::Record(r) => record_markdown(r),
        _ => Seq::empty(),
    }
}

/// The lightweight-markup document of a sequence of lines, in their order.
pub open spec fn document_markdown(lines: Seq<LineRead>) -> Seq<char>
    decreases lines.len(),
{
    if lines.len() == 0 {
        Seq::empty()
    } else {
        document_markdown(lines.drop_last()) + line_markdown(lines.last())
    }
}

/// The markup of blocks laid end to end is the markup of the first run followed
/// by that of the second.
pub proof fn lemma_blocks_concat(a: Seq<ContentBlock>, b: Seq<ContentBlock>)
    ensures
        blocks_markdown(a + b) == blocks_markdown(a) + blocks_markdown(b),
    decreases b.len(),
{
    if b.len() == 0 {
        assert(a + b =~= a);
        assert(blocks_markdown(a) + blocks_markdown(b) =~= blocks_markdown(a));
    } else {
        assert((a + b).drop_last() =~= a + b.drop_last());
        assert((a + b).last() == b.last());
        lemma_blocks_concat(a, b.drop_last());
        assert(blocks_markdown(a + b) =~= blocks_markdown(a) + blocks_markdown(b));
    }
}

/// A block whose tag is not `text`, or whose text is absent, changes nothing
/// wherever it stands among the other blocks.
pub proof fn lemma_skipped_block_adds_nothing(
    blocks: Seq<ContentBlock>,
    at: int,
    block: ContentBlock,
)
    requires
        0 <= at <= blocks.len(),
        !block_is_emitted(block),
    ensures
        blocks_markdown(blocks.insert(at, block)) == blocks_markdown(blocks),
{
    let head = blocks.take(at);
    let tail = blocks.skip(at);
    let one = seq![block];
    assert(blocks.insert(at, block) =~= (head + one) + tail);
    assert(blocks =~= head + tail);
    assert(one.drop_last() =~= Seq::<ContentBlock>::empty());
    assert(blocks_markdown(one) =~= Seq::<char>::empty()) by {
        assert(blocks_markdown(one.drop_last()) =~= Seq::<char>::empty());
        assert(one.last() == block);
    }
    lemma_blocks_concat(head, one);
    lemma_blocks_concat(head + one, tail);
    lemma_blocks_concat(head, tail);
    assert(blocks_markdown(head) + blocks_markdown(one) =~= blocks_markdown(head));
}

/// The document of lines laid end to end is the document of the first run
/// followed by that of the second: nothing is reordered, and what more lines
/// add comes after what was there.
pub proof fn lemma_document_concat(a: Seq<LineRead>, b: Seq<LineRead>)
    ensures
        document_markdown(a + b) == document_markdown(a) + document_markdown(b),
    decreases b.len(),
{
    if b.len() == 0 {
        assert(a + b =~= a);
        assert(document_markdown(a) + document_markdown(b) =~= document_markdown(a));
    } else {
        assert((a + b).drop_last() =~= a + b.drop_last());
        assert((a + b).last() == b.last());
        lemma_document_concat(a, b.drop_last());
        assert(document_markdown(a + b) =~= document_markdown(a) + document_markdown(b));
    }
}

/// The document of a single line is that line's markup.
pub proof fn lemma_document_single(line: LineRead)
    ensures
        document_markdown(seq![line]) == line_markdown(line),
{
    let one = seq![line];
    assert(one.drop_last() =~= Seq::<LineRead>::empty());
    assert(one.last() == line);
    assert(document_markdown(one.drop_last()) =~= Seq::<char>::empty());
    assert(document_markdown(one) =~= line_markdown(line));
}

/// A text-bearing record that is added at the end makes the document strictly
/// longer, and the document before it stays as its beginning.
pub proof fn lemma_document_grows(lines: Seq<LineRead>, record: Root)
    requires
        is_conversational(record.record_type),
        record.message is Some,
    ensures
        document_markdown(lines.push(LineRead::Record(record))) == document_markdown(lines)
            + record_markdown(record),
        document_markdown(lines.push(LineRead::Record(record))).len() > document_markdown(
            lines,
        ).len(),
        document_markdown(lines).is_prefix_of(
            document_markdown(lines.push(LineRead::Record(record))),
        ),
{
    let line = LineRead::Record(record);
    assert(lines.push(line).drop_last() =~= lines);
    assert(lines.push(line).last() == line);
    reveal_strlit("\n\n");
    let m = record.message->Some_0;
    assert(heading_markdown(m.role@).len() >= 2);
    assert(record_markdown(record).len() >= 2);
    assert(document_markdown(lines).is_prefix_of(
        document_markdown(lines) + record_markdown(record),
    ));
}

/// A record of any kind but `assistant` and `user`, or without a kind, leaves
/// no heading and no text: the document is the same with it and without it,
/// wherever it stands.
pub proof fn lemma_other_kind_adds_nothing(lines: Seq<LineRead>, at: int, record: Root)
    requires
        0 <= at <= lines.len(),
        !is_conversational(record.record_type),
    ensures
        record_markdown(record) == Seq::<char>::empty(),
        document_markdown(lines.insert(at, LineRead::Record(record))) == document_markdown(lines),
{
    let head = lines.take(at);
    let tail = lines.skip(at);
    let one = seq![LineRead::Record(record)];
    assert(lines.insert(at, LineRead::Record(record)) =~= (head + one) + tail);
    assert(lines =~= head + tail);
    lemma_document_single(LineRead::Record(record));
    lemma_document_concat(head, one);
    lemma_document_concat(head + one, tail);
    lemma_document_concat(head, tail);
    assert(document_markdown(head) + document_markdown(one) =~= document_markdown(head));
}

/// A record without a message leaves nothing either, whatever its kind.
pub proof fn lemma_no_message_adds_nothing(lines: Seq<LineRead>, at: int, record: Root)
    requires
        0 <= at <= lines.len(),
        record.message is None,
    ensures
        document_markdown(lines.insert(at, LineRead::Record(record))) == document_markdown(lines),
{
    let head = lines.take(at);
    let tail = lines.skip(at);
    let one = seq![LineRead::Record(record)];
    assert(lines.insert(at, LineRead::Record(record)) =~= (head + one) + tail);
    assert(lines =~= head + tail);
    lemma_document_single(LineRead::Record(record));
    lemma_document_concat(head, one);
    lemma_document_concat(head + one, tail);
    lemma_document_concat(head, tail);
    assert(document_markdown(head) + document_markdown(one) =~= document_markdown(head));
}

} // verus!
