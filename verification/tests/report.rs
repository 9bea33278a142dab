use forum_watch::report::{closing_text, lay_out, report, Align, Cell};
use forum_watch::row::Row;

fn row(n: u32) -> Row {
    Row {
        cells: vec![
            format!("2025/01/{n:02}"),
            format!("title {n}"),
            "who".to_string(),
            "0".to_string(),
            "1".to_string(),
        ],
        link: format!("https://forum.example/Topic.aspx?Id={n}"),
    }
}

fn shape(line: &[Cell]) -> Vec<(String, usize, Align)> {
    line.iter().map(|c| (c.text.clone(), c.span, c.align)).collect()
}

#[test]
fn closing_line_counts_the_entries() {
    assert_eq!(closing_text(0), "本次計有 0 篇新文章");
    assert_eq!(closing_text(3), "本次計有 3 篇新文章");
    assert_eq!(closing_text(25), "本次計有 25 篇新文章");
}

#[test]
fn layout_of_an_empty_report() {
    let lines = lay_out(&Vec::new(), "2025/01/01 00:00:00");
    assert_eq!(lines.len(), 3);
    assert_eq!(shape(&lines[0]), vec![("2025/01/01 00:00:00".to_string(), 2, Align::Center)]);
    assert_eq!(
        shape(&lines[1]),
        vec![("原始標題".to_string(), 1, Align::Center), ("連結".to_string(), 1, Align::Center)]
    );
    assert_eq!(shape(&lines[2]), vec![("本次計有 0 篇新文章".to_string(), 2, Align::Center)]);
}

#[test]
fn layout_lists_each_entry_with_title_and_link() {
    let posts = vec![row(2), row(1), Row { cells: vec!["only".to_string()], link: "l".to_string() }];
    let lines = lay_out(&posts, "now");
    assert_eq!(lines.len(), 6);
    assert_eq!(
        shape(&lines[2]),
        vec![
            ("title 2".to_string(), 1, Align::Left),
            ("https://forum.example/Topic.aspx?Id=2".to_string(), 1, Align::Left)
        ]
    );
    assert_eq!(
        shape(&lines[3]),
        vec![
            ("title 1".to_string(), 1, Align::Left),
            ("https://forum.example/Topic.aspx?Id=1".to_string(), 1, Align::Left)
        ]
    );
    assert_eq!(
        shape(&lines[4]),
        vec![(String::new(), 1, Align::Left), ("l".to_string(), 1, Align::Left)]
    );
    assert_eq!(shape(&lines[5]), vec![("本次計有 3 篇新文章".to_string(), 2, Align::Center)]);
}

#[test]
fn report_draws_a_table() {
    let text = report(&vec![row(2), row(1)], "2025/01/02 10:20:30");
    assert!(text.starts_with('╔'));
    assert!(text.contains("2025/01/02 10:20:30"));
    assert!(text.contains("原始標題"));
    assert!(text.contains("連結"));
    assert!(text.contains("║ title 2 "));
    assert!(text.contains(" https://forum.example/Topic.aspx?Id=1 ║"));
    assert!(text.contains("本次計有 2 篇新文章"));
    assert!(text.ends_with("╝\n"));
    // top border, stamp, separator, headings, then separator and line per
    // entry, separator, closing line, bottom border
    assert_eq!(text.lines().count(), 5 + 2 * 2 + 2);
    let at = |needle: &str| text.find(needle).unwrap();
    assert!(at("2025/01/02") < at("原始標題"));
    assert!(at("原始標題") < at("title 2"));
    assert!(at("title 2") < at("title 1"));
    assert!(at("title 1") < at("本次計有"));
}

#[test]
fn report_of_nothing_new_still_has_its_frame() {
    let text = report(&Vec::new(), "stamp");
    assert!(text.contains("stamp"));
    assert!(text.contains("本次計有 0 篇新文章"));
    assert_eq!(text.lines().count(), 7);
}

#[test]
fn report_wraps_long_titles() {
    let long = Row {
        cells: vec!["t".to_string(), "長".repeat(200), "a".into(), "b".into(), "c".into()],
        link: "https://forum.example/".to_string() + &"x".repeat(300),
    };
    let text = report(&vec![long], "stamp");
    assert_eq!(text.matches('長').count(), 200);
    assert!(text.lines().count() > 9);
}
