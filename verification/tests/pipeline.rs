use transcript_pdf::extract::{ExtractError, ExtractErrorKind};
use transcript_pdf::pipeline::{
    render_conversation, renderer_arguments, renderer_verdict, RenderError, RendererRun,
};
use transcript_pdf::record::{Content, ContentBlock, LineRead, Message, Root};
use transcript_pdf::render::render_markdown_with_highlighting;

fn user_hello() -> LineRead {
    LineRead::Record(Root {
        record_type: Some("user".to_string()),
        message: Some(Message { role: "user".to_string(), content: Content::Text("Hello".to_string()) }),
    })
}

fn assistant_hi() -> LineRead {
    LineRead::Record(Root {
        record_type: Some("assistant".to_string()),
        message: Some(Message {
            role: "assistant".to_string(),
            content: Content::Blocks(vec![ContentBlock {
                block_type: "text".to_string(),
                text: Some("Hi there".to_string()),
            }]),
        }),
    })
}

#[test]
fn conversation_renders_in_order() {
    let doc = render_conversation(&vec![user_hello(), assistant_hi()]).unwrap();
    let user = doc.find("<h2>user</h2>").unwrap();
    let hello = doc.find("<p>Hello</p>").unwrap();
    let assistant = doc.find("<h2>assistant</h2>").unwrap();
    let hi = doc.find("<p>Hi there</p>").unwrap();
    assert!(user < hello && hello < assistant && assistant < hi);
    assert_eq!(
        doc,
        render_markdown_with_highlighting("## user\n\nHello\n\n## assistant\n\nHi there\n\n")
    );
}

#[test]
fn malformed_line_yields_no_document() {
    let result = render_conversation(&vec![user_hello(), LineRead::Malformed]);
    assert_eq!(result, Err(ExtractError { kind: ExtractErrorKind::Parse, line: 1 }));
}

#[test]
fn skipped_record_leaves_the_document_unchanged() {
    let summary = LineRead::Record(Root { record_type: Some("summary".to_string()), message: None });
    assert_eq!(
        render_conversation(&vec![user_hello(), summary, assistant_hi()]),
        render_conversation(&vec![user_hello(), assistant_hi()])
    );
}

#[test]
fn conversion_twice_is_byte_identical() {
    let lines = vec![user_hello(), assistant_hi()];
    assert_eq!(render_conversation(&lines), render_conversation(&lines));
}

#[test]
fn renderer_arguments_are_exact() {
    assert_eq!(
        renderer_arguments("/tmp/out dir/chat.html", "out/chat.pdf"),
        vec![
            "--headless".to_string(),
            "--disable-gpu".to_string(),
            "--print-to-pdf=out/chat.pdf".to_string(),
            "file:///tmp/out dir/chat.html".to_string(),
        ]
    );
}

#[test]
fn only_a_successful_exit_is_success() {
    assert_eq!(renderer_verdict(RendererRun::Exited { success: true }), Ok(()));
    assert_eq!(renderer_verdict(RendererRun::Exited { success: false }), Err(RenderError::Exit));
    assert_eq!(renderer_verdict(RendererRun::Unreachable), Err(RenderError::Launch));
}
