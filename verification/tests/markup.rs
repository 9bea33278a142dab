use forum_watch::link::resolve;
use forum_watch::markup::{
    extract_rows, read_table, rows_of, SelectorError, Selectors, TableRow, TABLE_BODY, TABLE_CELL,
    TABLE_ROW, TITLE_ANCHOR,
};
use forum_watch::page::{pin_filter, MIN_FIELDS, PIN_TAG};

const BASE: &str = "https://www.p9.com.tw/Forum/ForumSection.aspx?Id=1&Sort=Post_Time";

fn entry(time: &str, title: &str, href: Option<&str>) -> String {
    let anchor = match href {
        Some(h) => format!("<a href=\"{h}\">\n   {title}\n </a>"),
        None => title.to_string(),
    };
    format!(
        "<tr><td> {time} </td><td class=\"pricelist_02\" align=\"left\"><div>{anchor}</div></td>\
         <td>author</td><td>\n3\n</td><td>120</td></tr>"
    )
}

fn listing(entries: &[String]) -> String {
    let mut inner = String::from("<tr><td>時間</td><td>標題</td><td>作者</td><td>回應</td><td>人氣</td></tr>");
    for e in entries {
        inner.push_str(e);
    }
    let filler = "<tr><td>x</td></tr>".repeat(5);
    format!(
        "<html><body><div class=\"contentMain\"><table><tbody>{filler}\
         <tr><td><table><tbody>{inner}</tbody></table></td></tr>\
         </tbody></table></div></body></html>"
    )
}

#[test]
fn selectors_of_the_listing_parse() {
    assert!(Selectors::listing().is_ok());
}

#[test]
fn rows_are_read_in_page_order_without_the_header() {
    let selectors = Selectors::listing().unwrap();
    let markup = listing(&[
        entry("2025/01/03", "third", Some("ForumTopic.aspx?Id=3")),
        entry("2025/01/02", "second", Some("/Forum/ForumTopic.aspx?Id=2")),
        entry("2025/01/01", "first", Some("https://other.example/t/1")),
    ]);
    let rows = extract_rows(&markup, &selectors, BASE);
    assert_eq!(rows.len(), 3);
    assert_eq!(rows[0].cells, vec!["2025/01/03", "third", "author", "3", "120"]);
    assert_eq!(rows[1].cells, vec!["2025/01/02", "second", "author", "3", "120"]);
    assert_eq!(rows[2].cells, vec!["2025/01/01", "first", "author", "3", "120"]);
    assert_eq!(
        rows[0].link.as_deref(),
        Some("https://www.p9.com.tw/Forum/ForumTopic.aspx?Id=3")
    );
    assert_eq!(
        rows[1].link.as_deref(),
        Some("https://www.p9.com.tw/Forum/ForumTopic.aspx?Id=2")
    );
    assert_eq!(rows[2].link.as_deref(), Some("https://other.example/t/1"));
}

#[test]
fn a_row_without_an_anchor_has_no_link() {
    let selectors = Selectors::listing().unwrap();
    let markup = listing(&[
        entry("2025/01/02", "no anchor", None),
        entry("2025/01/01", "first", Some("ForumTopic.aspx?Id=1")),
    ]);
    let rows = extract_rows(&markup, &selectors, BASE);
    assert_eq!(rows.len(), 2);
    assert_eq!(rows[0].link, None);
    assert_eq!(rows[0].cells[1], "no anchor");
    let page = pin_filter(&rows, PIN_TAG, MIN_FIELDS);
    assert_eq!(page.len(), 1);
    assert_eq!(page[0].link, "https://www.p9.com.tw/Forum/ForumTopic.aspx?Id=1");
}

#[test]
fn the_last_title_anchor_gives_the_link() {
    let selectors = Selectors::listing().unwrap();
    let row = "<tr><td>t</td><td class=\"pricelist_02\" align=\"left\"><div>\
               <a href=\"A.aspx\">a</a><a href=\"B.aspx\">b</a></div></td>\
               <td><a href=\"C.aspx\">elsewhere</a></td><td>3</td><td>4</td></tr>"
        .to_string();
    let rows = extract_rows(&listing(&[row]), &selectors, BASE);
    assert_eq!(rows.len(), 1);
    assert_eq!(rows[0].link.as_deref(), Some("https://www.p9.com.tw/Forum/B.aspx"));
    assert_eq!(rows[0].cells[1], "ab");
}

#[test]
fn an_anchor_without_a_reference_gives_no_link() {
    let selectors = Selectors::listing().unwrap();
    let row = "<tr><td>t</td><td class=\"pricelist_02\" align=\"left\"><div>\
               <a name=\"x\">a</a></div></td><td>2</td><td>3</td><td>4</td></tr>"
        .to_string();
    let rows = extract_rows(&listing(&[row]), &selectors, BASE);
    assert_eq!(rows.len(), 1);
    assert_eq!(rows[0].link, None);
}

#[test]
fn a_page_without_the_table_has_no_rows() {
    let selectors = Selectors::listing().unwrap();
    assert!(extract_rows("", &selectors, BASE).is_empty());
    assert!(extract_rows("<html><body><p>maintenance</p></body></html>", &selectors, BASE).is_empty());
    assert!(extract_rows(&listing(&[]), &selectors, BASE).is_empty());
}

#[test]
fn short_rows_are_read_and_left_to_the_filter() {
    let selectors = Selectors::listing().unwrap();
    let markup = listing(&[
        "<tr><td colspan=\"5\">advert</td></tr>".to_string(),
        entry("2025/01/01", "【頂】rules", Some("ForumTopic.aspx?Id=9")),
        entry("2025/01/01", "first", Some("ForumTopic.aspx?Id=1")),
    ]);
    let rows = extract_rows(&markup, &selectors, BASE);
    assert_eq!(rows.len(), 3);
    assert_eq!(rows[0].cells, vec!["advert"]);
    let page = pin_filter(&rows, PIN_TAG, MIN_FIELDS);
    assert_eq!(page.len(), 1);
    assert_eq!(page[0].cells[1], "first");
}

#[test]
fn references_resolve_against_the_base() {
    let some = |s: &str| Some(s.to_string());
    assert_eq!(
        resolve(BASE, &some("ForumTopic.aspx?Id=7")),
        some("https://www.p9.com.tw/Forum/ForumTopic.aspx?Id=7")
    );
    assert_eq!(resolve(BASE, &some("../x")), some("https://www.p9.com.tw/x"));
    assert_eq!(resolve(BASE, &some("//eve.example/b")), some("https://eve.example/b"));
    assert_eq!(resolve(BASE, &some("")), some(BASE));
    assert_eq!(resolve(BASE, &None), None);
    assert_eq!(resolve("not an address", &some("a")), None);
    assert_eq!(resolve(BASE, &some("http://[bad")), None);
}

fn table_row(texts: &[&str], references: &[Option<&str>]) -> TableRow {
    TableRow {
        texts: texts.iter().map(|t| t.to_string()).collect(),
        references: references.iter().map(|r| r.map(|s| s.to_string())).collect(),
    }
}

#[test]
fn the_table_is_read_with_its_header_and_raw_texts() {
    let selectors = Selectors::listing().unwrap();
    let markup = listing(&[entry("2025/01/01", "first", Some("ForumTopic.aspx?Id=1"))]);
    let table = read_table(&markup, &selectors);
    assert_eq!(table.len(), 2);
    assert_eq!(table[0].texts, vec!["時間", "標題", "作者", "回應", "人氣"]);
    assert!(table[0].references.is_empty());
    assert_eq!(table[1].texts, vec![" 2025/01/01 ", "\n   first\n ", "author", "\n3\n", "120"]);
    assert_eq!(table[1].references, vec![Some("ForumTopic.aspx?Id=1".to_string())]);
}

#[test]
fn rows_of_passes_over_the_header_only() {
    assert!(rows_of(&Vec::new(), BASE).is_empty());
    assert!(rows_of(&vec![table_row(&["a", "b"], &[Some("x")])], BASE).is_empty());
    let table = vec![
        table_row(&["head"], &[]),
        table_row(&[" a \n", "b\nc"], &[Some("x")]),
        table_row(&[], &[]),
        table_row(&["\n"], &[Some("y"), None]),
        table_row(&["d"], &[None, Some("/z")]),
    ];
    let rows = rows_of(&table, BASE);
    assert_eq!(rows.len(), 4);
    assert_eq!(rows[0].cells, vec!["a", "bc"]);
    assert_eq!(rows[0].link.as_deref(), Some("https://www.p9.com.tw/Forum/x"));
    assert!(rows[1].cells.is_empty());
    assert_eq!(rows[1].link, None);
    assert_eq!(rows[2].cells, vec![""]);
    assert_eq!(rows[2].link, None);
    assert_eq!(rows[3].cells, vec!["d"]);
    assert_eq!(rows[3].link.as_deref(), Some("https://www.p9.com.tw/z"));
}

#[test]
fn rows_of_a_page_at_no_address_have_no_links() {
    let table = vec![table_row(&["head"], &[]), table_row(&["a"], &[Some("x")])];
    let rows = rows_of(&table, "nowhere");
    assert_eq!(rows.len(), 1);
    assert_eq!(rows[0].link, None);
}

#[test]
fn each_unreadable_selector_is_named() {
    let bad = "td >";
    assert_eq!(
        Selectors::parse(bad, TABLE_ROW, TABLE_CELL, TITLE_ANCHOR).err(),
        Some(SelectorError::TableBody)
    );
    assert_eq!(
        Selectors::parse(TABLE_BODY, bad, TABLE_CELL, TITLE_ANCHOR).err(),
        Some(SelectorError::TableRow)
    );
    assert_eq!(
        Selectors::parse(TABLE_BODY, TABLE_ROW, bad, TITLE_ANCHOR).err(),
        Some(SelectorError::TableCell)
    );
    assert_eq!(
        Selectors::parse(TABLE_BODY, TABLE_ROW, TABLE_CELL, bad).err(),
        Some(SelectorError::TitleAnchor)
    );
    assert_eq!(Selectors::parse(bad, bad, bad, bad).err(), Some(SelectorError::TableBody));
    assert!(Selectors::parse("table", "tr", "td", "a").is_ok());
}

#[test]
fn other_selectors_read_other_tables() {
    let selectors = Selectors::parse("table#t", "tr", "td", "a.title").unwrap();
    let markup = "<table id=\"t\"><tr><th>h</th></tr>\
                  <tr><td><a class=\"title\" href=\"/one\">One</a></td><td> 1 </td></tr></table>";
    let rows = extract_rows(markup, &selectors, "https://forum.example/list");
    assert_eq!(rows.len(), 1);
    assert_eq!(rows[0].cells, vec!["One", "1"]);
    assert_eq!(rows[0].link.as_deref(), Some("https://forum.example/one"));
}

#[test]
fn the_same_markup_reads_as_the_same_table() {
    let selectors = Selectors::listing().unwrap();
    let markup = listing(&[
        entry("2025/01/02", "second", Some("ForumTopic.aspx?Id=2")),
        entry("2025/01/01", "first", None),
    ]);
    let once = read_table(&markup, &selectors);
    let again = read_table(&markup, &selectors);
    assert_eq!(once.len(), 3);
    assert_eq!(once.len(), again.len());
    for (a, b) in once.iter().zip(again.iter()) {
        assert_eq!(a.texts, b.texts);
        assert_eq!(a.references, b.references);
    }
    assert_eq!(once[1].references, vec![Some("ForumTopic.aspx?Id=2".to_string())]);
    assert!(once[2].references.is_empty());
}
