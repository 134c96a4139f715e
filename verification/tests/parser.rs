use sqlk::query_parser::block::QueryBlock;
use sqlk::query_parser::parser::QueryParser;
use sqlk::query_parser::utils::StringUtils;

fn texts(blocks: &Vec<QueryBlock>) -> Vec<String> {
    blocks.iter().map(|b| b.text.clone()).collect()
}

fn spans(blocks: &Vec<QueryBlock>) -> Vec<(usize, usize)> {
    blocks.iter().map(|b| (b.start_line, b.end_line)).collect()
}

#[test]
fn parse_empty_text_gives_no_blocks() {
    let blocks = QueryParser::new().parse_query_blocks("");
    assert!(blocks.is_empty());
}

#[test]
fn parse_statement_with_trailing_comment() {
    let blocks = QueryParser::new().parse_query_blocks("SELECT 1; -- note\n");
    assert_eq!(blocks.len(), 1);
    assert_eq!(blocks[0].text, "SELECT 1");
    assert_eq!(blocks[0].start_line, 1);
    assert_eq!(blocks[0].end_line, 1);
}

#[test]
fn parse_transaction_is_one_block() {
    let blocks =
        QueryParser::new().parse_query_blocks("BEGIN;\nUPDATE t SET x=1;\nCOMMIT;\n");
    assert_eq!(blocks.len(), 1);
    assert_eq!(blocks[0].start_line, 1);
    assert_eq!(blocks[0].end_line, 3);
    assert_eq!(blocks[0].text, "BEGIN;\nUPDATE t SET x=1;\nCOMMIT");
}

#[test]
fn parse_transaction_keyword_in_any_case() {
    let blocks = QueryParser::new().parse_query_blocks("begin;\nDELETE FROM t;\nrollback;\nSELECT 2;\n");
    assert_eq!(spans(&blocks), vec![(1, 3), (4, 4)]);
    assert_eq!(texts(&blocks), vec!["begin;\nDELETE FROM t;\nrollback".to_string(), "SELECT 2".to_string()]);
}

#[test]
fn parse_blocks_are_ordered_and_disjoint() {
    let text = "-- head\n\nSELECT 1;\n\nSELECT 2\nFROM t;\n-- between\nBEGIN;\nINSERT INTO t VALUES (1);\nCOMMIT;\nSELECT 3";
    let blocks = QueryParser::new().parse_query_blocks(text);
    assert_eq!(spans(&blocks), vec![(3, 3), (5, 6), (8, 10), (11, 11)]);
    for pair in blocks.windows(2) {
        assert!(pair[0].start_line <= pair[0].end_line);
        assert!(pair[0].end_line < pair[1].start_line);
    }
    assert_eq!(blocks[1].text, "SELECT 2\nFROM t");
    assert_eq!(blocks[3].text, "SELECT 3");
}

#[test]
fn parse_skips_leading_blank_and_comment_lines() {
    let blocks = QueryParser::new().parse_query_blocks("\n   \n-- a comment\nSELECT 1;\n");
    assert_eq!(spans(&blocks), vec![(4, 4)]);
    assert_eq!(blocks[0].text, "SELECT 1");
}

#[test]
fn parse_keeps_comment_and_blank_lines_inside_a_block() {
    let blocks = QueryParser::new().parse_query_blocks("SELECT a,\n-- the second column\n\n  b\nFROM t;\n");
    assert_eq!(spans(&blocks), vec![(1, 5)]);
    assert_eq!(blocks[0].text, "SELECT a,\n-- the second column\n\n  b\nFROM t");
}

#[test]
fn parse_unterminated_statement_at_end_of_input() {
    let blocks = QueryParser::new().parse_query_blocks("SELECT 1;\nSELECT 2\nFROM t");
    assert_eq!(spans(&blocks), vec![(1, 1), (2, 3)]);
    assert_eq!(blocks[1].text, "SELECT 2\nFROM t");
}

#[test]
fn parse_only_comments_gives_no_blocks() {
    let blocks = QueryParser::new().parse_query_blocks("-- one\n-- two\n\n");
    assert!(blocks.is_empty());
}

#[test]
fn parse_lone_semicolon_gives_no_block() {
    let blocks = QueryParser::new().parse_query_blocks(";\nSELECT 1;\n");
    assert_eq!(spans(&blocks), vec![(2, 2)]);
}

#[test]
fn parse_semicolon_inside_a_line_does_not_end_the_block() {
    let blocks = QueryParser::new().parse_query_blocks("SELECT ';' AS s\nFROM t;\n");
    assert_eq!(spans(&blocks), vec![(1, 2)]);
}

#[test]
fn parse_handles_carriage_returns() {
    let blocks = QueryParser::new().parse_query_blocks("SELECT 1;\r\nSELECT 2;\r\n");
    assert_eq!(spans(&blocks), vec![(1, 1), (2, 2)]);
    assert_eq!(texts(&blocks), vec!["SELECT 1".to_string(), "SELECT 2".to_string()]);
}

#[test]
fn find_gives_the_covering_block_at_both_boundaries() {
    let parser = QueryParser::new();
    let blocks = parser.parse_query_blocks("SELECT 1;\n\nSELECT 2\nFROM t\nWHERE x;\n\nSELECT 3;\n");
    assert_eq!(spans(&blocks), vec![(1, 1), (3, 5), (7, 7)]);
    assert_eq!(parser.find_query_at_line(&blocks, 3).map(|b| b.text.clone()), Some("SELECT 2\nFROM t\nWHERE x".to_string()));
    assert_eq!(parser.find_query_at_line(&blocks, 5).map(|b| b.start_line), Some(3));
    assert_eq!(parser.find_query_at_line(&blocks, 4).map(|b| b.start_line), Some(3));
    assert_eq!(parser.find_query_at_line(&blocks, 1).map(|b| b.end_line), Some(1));
    assert_eq!(parser.find_query_at_line(&blocks, 7).map(|b| b.start_line), Some(7));
}

#[test]
fn find_gives_nothing_outside_every_block() {
    let parser = QueryParser::new();
    let blocks = parser.parse_query_blocks("SELECT 1;\n\nSELECT 2;\n");
    assert!(parser.find_query_at_line(&blocks, 2).is_none());
    assert!(parser.find_query_at_line(&blocks, 0).is_none());
    assert!(parser.find_query_at_line(&blocks, 4).is_none());
    assert!(parser.find_query_at_line(&Vec::new(), 1).is_none());
}

#[test]
fn block_contains_line_and_is_empty() {
    let block = QueryBlock::new("SELECT 1".to_string(), 2, 4);
    assert!(!block.contains_line(1));
    assert!(block.contains_line(2));
    assert!(block.contains_line(4));
    assert!(!block.contains_line(5));
    assert!(!block.is_empty());
    assert!(QueryBlock::new(" \n\t ".to_string(), 1, 1).is_empty());
    assert!(QueryBlock::new(String::new(), 1, 1).is_empty());
}

#[test]
fn line_predicates() {
    let parser = QueryParser::new();
    let chars = |s: &str| s.chars().collect::<Vec<char>>();
    assert!(parser.should_skip_line(&chars(""), false));
    assert!(parser.should_skip_line(&chars("-- x"), false));
    assert!(!parser.should_skip_line(&chars("-- x"), true));
    assert!(!parser.should_skip_line(&chars("SELECT"), false));
    assert!(parser.is_transaction_start(&chars("Begin transaction;")));
    assert!(!parser.is_transaction_start(&chars("SELECT 'BEGIN'")));
    assert!(parser.line_ends_statement(&chars("SELECT 1;")));
    assert!(parser.line_ends_statement(&chars("SELECT 1;   ")));
    assert!(parser.line_ends_statement(&chars("SELECT 1; -- done")));
    assert!(!parser.line_ends_statement(&chars("SELECT 1; SELECT")));
    assert!(!parser.line_ends_statement(&chars("SELECT 1")));
    assert!(parser.should_end_query_block(&chars("SELECT 1;"), false));
    assert!(!parser.should_end_query_block(&chars("SELECT 1;"), true));
    assert!(parser.should_end_query_block(&chars("commit;"), true));
    assert!(parser.should_end_query_block(&chars("ROLLBACK; -- undo"), true));
    assert!(!parser.should_end_query_block(&chars("COMMIT"), true));
}

#[test]
fn string_utils_empty_query() {
    assert!(StringUtils::is_empty_query(""));
    assert!(StringUtils::is_empty_query("  \n-- only a comment\n\t"));
    assert!(!StringUtils::is_empty_query("-- comment\nSELECT 1"));
}

#[test]
fn string_utils_clean_query() {
    assert_eq!(
        StringUtils::clean_query("  SELECT a,\n-- comment\n\n   b\nFROM t  "),
        "SELECT a, b FROM t"
    );
    assert_eq!(StringUtils::clean_query("-- nothing\n\n"), "");
}

#[test]
fn string_utils_normalize_whitespace() {
    assert_eq!(StringUtils::normalize_whitespace("  a \t b\n\nc  "), "a b c");
    assert_eq!(StringUtils::normalize_whitespace("single"), "single");
    assert_eq!(StringUtils::normalize_whitespace(" \n "), "");
}
