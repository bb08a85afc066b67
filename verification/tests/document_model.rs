use element_finder::document::{Attribute, Document, Node};
use element_finder::finder::{find_element, find_element_by_attr, find_element_with_attr};
use element_finder::predicate::{And, Attr, Name, Predicate};

fn attribute(name: &str, value: &str) -> Attribute {
    Attribute { name: name.to_string(), value: value.to_string() }
}

fn element(name: &str, attrs: Vec<Attribute>, text: &str) -> Node {
    Node { name: Some(name.to_string()), attrs, text: text.to_string() }
}

fn text_node(text: &str) -> Node {
    Node { name: None, attrs: Vec::new(), text: text.to_string() }
}

fn sample() -> Document {
    Document {
        nodes: vec![
            element("html", vec![], "ACME CorpAbout"),
            element("h1", vec![attribute("class", "entry-title"), attribute("id", "top")], "ACME Corp"),
            text_node("ACME Corp"),
            element("h1", vec![attribute("id", "second")], "About"),
            text_node("About"),
        ],
    }
}

#[test]
fn parse_lists_nodes_in_document_order() {
    let document = Document::parse("<html><h1 class=\"entry-title\">ACME Corp</h1></html>");
    let names: Vec<Option<&str>> = document.nodes.iter().map(|n| n.name.as_deref()).collect();
    assert_eq!(names, vec![Some("html"), Some("head"), Some("body"), Some("h1"), None]);
    let title = &document.nodes[3];
    assert_eq!(title.attrs, vec![attribute("class", "entry-title")]);
    assert_eq!(title.text, "ACME Corp");
    assert_eq!(document.nodes[4], text_node("ACME Corp"));
    assert_eq!(document.nodes[0].text, "ACME Corp");
    assert_eq!(document.nodes[1].text, "");
}

#[test]
fn parse_lowercases_tag_and_attribute_names() {
    let document = Document::parse("<H1 CLASS=\"Big\">x</H1>");
    assert_eq!(find_element("h1", &document), vec!["x".to_string()]);
    assert_eq!(find_element("H1", &document), Vec::<String>::new());
    assert_eq!(find_element_with_attr("h1", "class", "Big", &document), vec!["x".to_string()]);
    assert_eq!(find_element_with_attr("h1", "class", "big", &document), Vec::<String>::new());
}

#[test]
fn parse_is_repeatable() {
    let html = "<div id=\"a\"><p>one</p><!-- c --><p>two</p></div>";
    assert_eq!(Document::parse(html), Document::parse(html));
}

#[test]
fn attr_returns_the_value_of_the_named_attribute() {
    let node = element("a", vec![attribute("href", "/x"), attribute("title", "t")], "");
    assert_eq!(node.attr(&"href".to_string()), Some(&"/x".to_string()));
    assert_eq!(node.attr(&"title".to_string()), Some(&"t".to_string()));
    assert_eq!(node.attr(&"id".to_string()), None);
}

#[test]
fn attr_returns_the_first_of_equal_names() {
    let node = element("a", vec![attribute("k", "first"), attribute("k", "second")], "");
    assert_eq!(node.attr(&"k".to_string()), Some(&"first".to_string()));
}

#[test]
fn attr_of_a_node_without_attributes_is_none() {
    assert_eq!(text_node("t").attr(&"class".to_string()), None);
}

#[test]
fn name_predicate_matches_elements_only() {
    let h1 = Name("h1".to_string());
    assert!(h1.matches(&element("h1", vec![], "")));
    assert!(!h1.matches(&element("h2", vec![], "")));
    assert!(!h1.matches(&text_node("h1")));
}

#[test]
fn attr_predicate_matches_name_and_value() {
    let class_a = Attr("class".to_string(), "a".to_string());
    assert!(class_a.matches(&element("p", vec![attribute("class", "a")], "")));
    assert!(!class_a.matches(&element("p", vec![attribute("class", "b")], "")));
    assert!(!class_a.matches(&element("p", vec![attribute("id", "a")], "")));
    assert!(!class_a.matches(&element("p", vec![], "")));
    assert!(!class_a.matches(&element("p", vec![attribute("class", "b"), attribute("class", "a")], "")));
}

#[test]
fn and_predicate_needs_both_parts() {
    let both = And(Name("p".to_string()), Attr("class".to_string(), "a".to_string()));
    assert!(both.matches(&element("p", vec![attribute("class", "a")], "")));
    assert!(!both.matches(&element("div", vec![attribute("class", "a")], "")));
    assert!(!both.matches(&element("p", vec![attribute("class", "b")], "")));
    let nested = And(both, Attr("id".to_string(), "x".to_string()));
    assert!(nested.matches(&element("p", vec![attribute("class", "a"), attribute("id", "x")], "")));
    assert!(!nested.matches(&element("p", vec![attribute("class", "a")], "")));
}

#[test]
fn find_collects_texts_of_accepted_nodes_in_order() {
    let document = sample();
    assert_eq!(
        document.find(&Name("h1".to_string())),
        vec!["ACME Corp".to_string(), "About".to_string()]
    );
    assert_eq!(
        document.find(&Attr("id".to_string(), "second".to_string())),
        vec!["About".to_string()]
    );
    assert_eq!(document.find(&Name("h2".to_string())), Vec::<String>::new());
}

#[test]
fn selection_over_a_built_document() {
    let document = sample();
    assert_eq!(
        find_element_by_attr("h1", Some("class"), Some("entry-title"), &document),
        Ok(vec!["ACME Corp".to_string()])
    );
    assert_eq!(
        find_element_by_attr("h1", None, None, &document),
        Ok(vec!["ACME Corp".to_string(), "About".to_string()])
    );
    assert_eq!(find_element_by_attr("h1", Some("id"), Some("none"), &document), Ok(Vec::new()));
}

#[test]
fn selection_leaves_the_document_unchanged() {
    let document = sample();
    let _ = find_element_by_attr("h1", Some("class"), Some("entry-title"), &document);
    assert_eq!(document, sample());
}
