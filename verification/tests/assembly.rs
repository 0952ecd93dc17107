use noteforge::assemble::{join_pages, Assembly};

#[test]
fn three_page_assembly_inserts_two_markers_in_order() {
    let fragments = vec![
        "first page".to_string(),
        "second page".to_string(),
        "third page".to_string(),
    ];
    let text = join_pages(&fragments);
    assert_eq!(text, "first page\\newpage\nsecond page\\newpage\nthird page");
    assert_eq!(text.matches("\\newpage\n").count(), 2);
    let a = text.find("first page").unwrap();
    let b = text.find("second page").unwrap();
    let c = text.find("third page").unwrap();
    assert!(a < b && b < c);
}

#[test]
fn single_page_assembly_inserts_no_marker() {
    let fragments = vec!["only page".to_string()];
    let text = join_pages(&fragments);
    assert_eq!(text, "only page");
    assert_eq!(text.matches("\\newpage").count(), 0);
}

#[test]
fn assembly_accumulates_fragments_in_page_order() {
    let mut assembly = Assembly::new(2);
    assert_eq!(assembly.pushed_count(), 0);
    assembly.push_fragment("begin");
    assert_eq!(assembly.pushed_count(), 1);
    assembly.push_fragment("end");
    assert_eq!(assembly.pushed_count(), 2);
    let text = assembly.into_text();
    assert_eq!(text, "begin\\newpage\nend");
}
