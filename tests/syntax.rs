use cosmic_notebook::markdown::syntax::{tokenize_line_content, LineState, MarkdownTokenizer, Token, TokenType};

fn kinds(tokens: &[Token]) -> Vec<(TokenType, usize, usize)> {
    tokens.iter().map(|t| (t.token_type, t.start, t.end)).collect()
}

#[test]
fn test_heading_tokenization() {
    let mut tokenizer = MarkdownTokenizer::new();
    let line_tokens = tokenizer.tokenize_line(0, "# Heading 1", LineState::Normal);
    assert!(!line_tokens.tokens.is_empty());
    assert_eq!(line_tokens.tokens[0].token_type, TokenType::Heading1);
}

#[test]
fn test_code_block() {
    let mut tokenizer = MarkdownTokenizer::new();
    let line1 = tokenizer.tokenize_line(0, "```rust", LineState::Normal);
    assert_eq!(line1.end_state, LineState::InCodeBlock { fence_char: '`', fence_count: 3 });
    let state1 = line1.end_state;
    let line2 = tokenizer.tokenize_line(1, "let x = 42;", state1);
    assert_eq!(line2.tokens[0].token_type, TokenType::CodeBlockContent);
    let state2 = line2.end_state;
    let line3 = tokenizer.tokenize_line(2, "```", state2);
    assert_eq!(line3.end_state, LineState::Normal);
}

#[test]
fn test_inline_elements() {
    let mut tokenizer = MarkdownTokenizer::new();
    let line = tokenizer.tokenize_line(0, "This is **bold** and *italic*", LineState::Normal);
    let bold_count = line.tokens.iter().filter(|t| t.token_type == TokenType::Bold).count();
    let italic_count = line.tokens.iter().filter(|t| t.token_type == TokenType::Italic).count();
    assert_eq!(bold_count, 1);
    assert_eq!(italic_count, 1);
}

#[test]
fn test_task_list() {
    let mut tokenizer = MarkdownTokenizer::new();
    let unchecked = tokenizer.tokenize_line(0, "- [ ] Todo item", LineState::Normal);
    assert!(unchecked.tokens.iter().any(|t| t.token_type == TokenType::TaskListUnchecked));
    let checked = tokenizer.tokenize_line(1, "- [x] Done item", LineState::Normal);
    assert!(checked.tokens.iter().any(|t| t.token_type == TokenType::TaskListChecked));
}

#[test]
fn inline_offsets() {
    let (tokens, state) = tokenize_line_content("a **b** `c` [t](u) ![i](p) \\* ~~s~~", LineState::Normal);
    assert_eq!(state, LineState::Normal);
    assert_eq!(
        kinds(&tokens),
        vec![
            (TokenType::Bold, 2, 7),
            (TokenType::InlineCode, 8, 11),
            (TokenType::LinkText, 12, 15),
            (TokenType::LinkUrl, 15, 18),
            (TokenType::ImageAlt, 19, 23),
            (TokenType::ImageUrl, 23, 26),
            (TokenType::Escape, 27, 29),
            (TokenType::Strikethrough, 30, 35),
        ]
    );
}

#[test]
fn block_constructs() {
    let (t, _) = tokenize_line_content("  > quote *x*", LineState::Normal);
    assert_eq!(kinds(&t), vec![(TokenType::Blockquote, 2, 3), (TokenType::Italic, 10, 13)]);
    let (t, _) = tokenize_line_content("12. item", LineState::Normal);
    assert_eq!(kinds(&t), vec![(TokenType::OrderedListMarker, 0, 4)]);
    let (t, _) = tokenize_line_content("* * *", LineState::Normal);
    assert_eq!(kinds(&t), vec![(TokenType::HorizontalRule, 0, 5)]);
    let (t, _) = tokenize_line_content("| a | b |", LineState::Normal);
    assert_eq!(kinds(&t), vec![(TokenType::TableDelimiter, 0, 9)]);
    let (t, _) = tokenize_line_content("plain words", LineState::Normal);
    assert_eq!(kinds(&t), vec![(TokenType::PlainText, 0, 11)]);
    let (t, _) = tokenize_line_content("", LineState::Normal);
    assert!(t.is_empty());
    let (t, _) = tokenize_line_content("####### seven", LineState::Normal);
    assert_eq!(kinds(&t), vec![(TokenType::PlainText, 0, 13)]);
    let (t, _) = tokenize_line_content("see https://example.com/x. now", LineState::Normal);
    assert_eq!(kinds(&t), vec![(TokenType::Autolink, 4, 25)]);
    let (t, _) = tokenize_line_content("note[^1] here", LineState::Normal);
    assert_eq!(kinds(&t), vec![(TokenType::FootnoteReference, 4, 8)]);
}

#[test]
fn fences_and_frontmatter() {
    let (t, s) = tokenize_line_content("~~~~ python ", LineState::Normal);
    assert_eq!(kinds(&t), vec![(TokenType::CodeBlockDelimiter, 0, 3), (TokenType::CodeBlockLanguage, 5, 11)]);
    assert_eq!(s, LineState::InCodeBlock { fence_char: '~', fence_count: 4 });
    let (_, s2) = tokenize_line_content("~~~", s);
    assert_eq!(s2, s);
    let (_, s3) = tokenize_line_content("  ~~~~  ", s);
    assert_eq!(s3, LineState::Normal);
    let (_, f) = tokenize_line_content("---", LineState::Normal);
    assert_eq!(f, LineState::InFrontmatter);
    let (t, f2) = tokenize_line_content("title: x", f);
    assert_eq!(kinds(&t), vec![(TokenType::Frontmatter, 0, 8)]);
    assert_eq!(f2, LineState::InFrontmatter);
    let (_, f3) = tokenize_line_content("---", f2);
    assert_eq!(f3, LineState::Normal);
}

#[test]
fn document_and_cache() {
    let mut tokenizer = MarkdownTokenizer::default();
    let doc = tokenizer.tokenize_document(&["```", "code", "```", "# H"]);
    assert_eq!(doc.len(), 4);
    assert_eq!(doc[1].tokens[0].token_type, TokenType::CodeBlockContent);
    assert_eq!(doc[2].end_state, LineState::Normal);
    assert_eq!(doc[3].tokens[0].token_type, TokenType::Heading1);
    let again = tokenizer.tokenize_line(1, "code", LineState::Normal);
    assert_eq!(again.tokens[0].token_type, TokenType::CodeBlockContent);
    tokenizer.invalidate_from_line(1);
    let fresh = tokenizer.tokenize_line(1, "code", LineState::Normal);
    assert_eq!(fresh.tokens[0].token_type, TokenType::PlainText);
    tokenizer.clear_cache();
    let tok = Token::new(TokenType::Bold, 2, 5);
    assert_eq!(tok.len(), 3);
    assert!(!tok.is_empty());
}
