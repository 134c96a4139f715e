use sqlk::config::parser::DatabaseUrlParser;
use sqlk::config::settings::Config;
use sqlk::database::manager::DatabaseManager;
use sqlk::database::manager::SchemaCache;
use sqlk::database::query_result::QueryResult;
use sqlk::query_parser::parser::QueryParser;
use sqlk::query_parser::utils::StringUtils;
use sqlk::table_viewer::chart::select_chart_items;
use sqlk::table_viewer::data::CellPosition;
use sqlk::table_viewer::data::TableViewer;
use unicode_width::UnicodeWidthStr;

/// Every text made of up to `max_len` of the given pieces.
fn texts(pieces: &[&str], max_len: usize) -> Vec<String> {
    let mut all = vec![String::new()];
    let mut last = vec![String::new()];
    for _ in 0..max_len {
        let mut next = Vec::new();
        for text in &last {
            for piece in pieces {
                next.push(format!("{}{}", text, piece));
            }
        }
        all.extend(next.iter().cloned());
        last = next;
    }
    all
}

fn is_empty_query(query: &str) -> bool {
    query.lines().all(|line| {
        let trimmed = line.trim();
        trimmed.is_empty() || trimmed.starts_with("--")
    })
}

fn ends_statement(line: &str) -> bool {
    let trimmed = line.trim_end();
    match trimmed.rfind(';') {
        Some(pos) => {
            let after = trimmed[pos + 1..].trim();
            after.is_empty() || after.starts_with("--")
        }
        None => false,
    }
}

/// The blocks of a text, found with the string functions of std.
fn blocks_by_std(content: &str) -> Vec<(String, usize, usize)> {
    let mut found = Vec::new();
    let mut current: Vec<&str> = Vec::new();
    let mut start_line: Option<usize> = None;
    let mut in_transaction = false;
    for (i, line) in content.lines().enumerate() {
        let line_number = i + 1;
        let trimmed = line.trim();
        if (trimmed.is_empty() || trimmed.starts_with("--")) && current.is_empty() {
            continue;
        }
        if start_line.is_none() {
            start_line = Some(line_number);
        }
        let upper = trimmed.to_uppercase();
        if upper.starts_with("BEGIN") {
            in_transaction = true;
        }
        current.push(line);
        let closes = upper.starts_with("COMMIT;") || upper.starts_with("ROLLBACK;");
        if (ends_statement(trimmed) && !in_transaction) || closes {
            let mut text = current.join("\n").trim().to_string();
            if ends_statement(trimmed) {
                if let Some(pos) = text.rfind(';') {
                    text.truncate(pos);
                }
            } else if text.ends_with(';') {
                text.pop();
            }
            let text = text.trim_end().to_string();
            if !is_empty_query(&text) {
                found.push((text, start_line.unwrap(), line_number));
            }
            current.clear();
            start_line = None;
            in_transaction = false;
        }
    }
    if !current.is_empty() {
        let text = current.join("\n").trim().to_string();
        let first_line = text.lines().next().unwrap_or("").trim().to_string();
        if !first_line.is_empty() && !first_line.starts_with("--") {
            found.push((text, start_line.unwrap_or(1), content.lines().count()));
        }
    }
    found
}

#[test]
fn parsing_agrees_with_the_string_functions_of_std() {
    let pieces = ["SELECT 1", ";", " ", "\n", "-- c", "begin", "Commit;", "ROLLBACK;", "\r\n", "x;y"];
    let parser = QueryParser::new();
    for text in texts(&pieces, 4) {
        let blocks: Vec<(String, usize, usize)> = parser
            .parse_query_blocks(&text)
            .into_iter()
            .map(|b| (b.text, b.start_line, b.end_line))
            .collect();
        assert_eq!(blocks, blocks_by_std(&text), "for {:?}", text);
        for pair in blocks.windows(2) {
            assert!(pair[0].2 < pair[1].1);
        }
        for (body, first, last) in &blocks {
            assert!(1 <= *first && first <= last && *last <= text.lines().count());
            assert_eq!(body.trim(), body);
            assert!(!body.is_empty());
            for line in *first..=*last {
                let found = parser.find_query_at_line(
                    &parser.parse_query_blocks(&text),
                    line,
                ).map(|b| b.start_line);
                assert_eq!(found, Some(*first));
            }
        }
    }
}

#[test]
fn string_utils_agree_with_the_string_functions_of_std() {
    let pieces = ["a", " ", "\t", "\n", "--", "\r\n", "\u{a0}", "b c"];
    for text in texts(&pieces, 4) {
        assert_eq!(StringUtils::is_empty_query(&text), is_empty_query(&text), "for {:?}", text);
        let cleaned = text
            .lines()
            .map(|line| line.trim())
            .filter(|line| !line.is_empty() && !line.starts_with("--"))
            .collect::<Vec<_>>()
            .join(" ");
        assert_eq!(StringUtils::clean_query(&text), cleaned, "for {:?}", text);
        let normalized = text.split_whitespace().collect::<Vec<_>>().join(" ");
        assert_eq!(StringUtils::normalize_whitespace(&text), normalized, "for {:?}", text);
    }
}

fn url_by_std(line: &str) -> Option<String> {
    let line = line.trim();
    if let Some(equals_pos) = line.find('=') {
        let key_part = line[..equals_pos].trim();
        if key_part == "DATABASE_URL" {
            let trimmed = line[equals_pos + 1..].trim();
            if !trimmed.is_empty() {
                return Some(trimmed.to_string());
            }
        }
    }
    None
}

#[test]
fn environment_lines_agree_with_the_string_functions_of_std() {
    let pieces = ["DATABASE_URL", "=", " ", "x://y", "\"", "#", "DATABASE"];
    for text in texts(&pieces, 5) {
        assert_eq!(DatabaseUrlParser::parse_from_line(&text), url_by_std(&text), "for {:?}", text);
    }
}

fn viewer_on(cells: &[&str]) -> TableViewer {
    let data = QueryResult {
        headers: vec!["a".to_string(), "b".to_string()],
        rows: cells.chunks(2).map(|r| r.iter().map(|c| c.to_string()).collect()).collect(),
        row_count: cells.len() / 2,
        execution_time: None,
        column_types: vec!["TEXT".to_string(), "TEXT".to_string()],
    };
    TableViewer::new(data, &Config::default(), &DatabaseManager::new(SchemaCache::new()))
}

fn format_by_crate(content: &str, col_width: usize) -> String {
    let display_width = UnicodeWidthStr::width(content);
    if display_width > col_width {
        let mut truncated = String::new();
        let mut current_width = 0;
        for ch in content.chars() {
            let char_width = UnicodeWidthStr::width(ch.to_string().as_str());
            if current_width + char_width > col_width.saturating_sub(3) {
                truncated.push_str("...");
                break;
            }
            truncated.push(ch);
            current_width += char_width;
        }
        let padding_needed = col_width.saturating_sub(UnicodeWidthStr::width(truncated.as_str()));
        truncated + &" ".repeat(padding_needed)
    } else {
        let padding_needed = col_width.saturating_sub(display_width);
        content.to_string() + &" ".repeat(padding_needed)
    }
}

#[test]
fn cells_are_formatted_as_the_width_of_their_text_asks() {
    let pieces = ["a", "日", "é", "e\u{301}", " ", "👍", "\u{200b}", "ab"];
    let mut viewer = viewer_on(&[]);
    for width in [0usize, 1, 2, 3, 4, 5, 8] {
        viewer.col_width = width;
        for text in texts(&pieces, 4) {
            assert_eq!(viewer.format_cell(&text), format_by_crate(&text, width), "for {:?}", text);
        }
    }
}

#[test]
fn search_agrees_with_the_string_functions_of_std() {
    let cells = ["Alpha", "beta", "ALPHABET", "", "Straße", "STRASSE", "İx", "ix", "NULL", "a"];
    for term in ["a", "ALPHA", "bet", "ß", "ss", "i", "İ", "x", "null", "zzz", ""] {
        let mut viewer = viewer_on(&cells);
        viewer.search(term);
        let mut expected = Vec::new();
        if !term.is_empty() {
            for (i, cell) in cells.iter().enumerate() {
                if cell.to_lowercase().contains(&term.to_lowercase()) {
                    expected.push(CellPosition { row: i / 2, col: i % 2 });
                }
            }
        }
        assert_eq!(viewer.search_state.matches, expected, "for {:?}", term);
        if let Some(first) = expected.first() {
            assert_eq!((viewer.current_row, viewer.current_col), (first.row, first.col));
        }
    }
}

fn chart_by_std(counts: &[(String, usize)], max_items: usize, highlight: &str) -> Vec<(String, usize)> {
    let mut sorted_items: Vec<(String, usize)> = counts.to_vec();
    sorted_items.sort_by(|a, b| b.1.cmp(&a.1));
    let mut items_to_show: Vec<(String, usize)> = Vec::new();
    let highlighted = sorted_items.iter().enumerate().find(|(_, (label, _))| label == highlight);
    if sorted_items.len() <= max_items {
        let mut temp_items = sorted_items.clone();
        if let Some((idx, _)) = highlighted {
            let item = temp_items.remove(idx);
            temp_items.insert(0, item);
        }
        items_to_show = temp_items;
    } else if let Some((idx, item_data)) = highlighted {
        if idx < max_items - 1 {
            let mut temp_items: Vec<_> = sorted_items.iter().take(max_items - 1).cloned().collect();
            if let Some(pos) = temp_items.iter().position(|(l, _)| l == highlight) {
                let item = temp_items.remove(pos);
                temp_items.insert(0, item);
            }
            let others_count: usize = sorted_items.iter().skip(max_items - 1).map(|(_, c)| *c).sum();
            items_to_show = temp_items;
            items_to_show.push(("<Others>".to_string(), others_count));
        } else {
            items_to_show.push(item_data.clone());
            let other_top_items = sorted_items
                .iter()
                .filter(|(label, _)| label != highlight)
                .take(max_items - 2)
                .cloned();
            items_to_show.extend(other_top_items);
            let others_count: usize = counts
                .iter()
                .filter(|(label, _)| !items_to_show.iter().any(|(l, _)| l == label))
                .map(|(_, count)| *count)
                .sum();
            if others_count > 0 {
                items_to_show.push(("<Others>".to_string(), others_count));
            }
        }
    }
    items_to_show
}

#[test]
fn chart_items_agree_with_a_stable_sort() {
    let labels = ["a", "b", "c", "d", "e", "f"];
    let mut seed: u64 = 7;
    for _ in 0..400 {
        let mut counts = Vec::new();
        for label in labels {
            seed = seed.wrapping_mul(6364136223846793005).wrapping_add(1442695040888963407);
            let pick = (seed >> 33) % 5;
            if pick > 0 {
                counts.push((label.to_string(), pick as usize));
            }
        }
        for max_items in 2..8 {
            for highlight in ["a", "c", "f", "z", ""] {
                assert_eq!(
                    select_chart_items(&counts, max_items, highlight),
                    chart_by_std(&counts, max_items, highlight),
                    "for {:?} {} {:?}",
                    counts,
                    max_items,
                    highlight
                );
            }
        }
    }
}
