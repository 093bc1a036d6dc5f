use yew_bootstrap::class::ClassList;
use yew_bootstrap::class::Modifier;

#[test]
fn compose_base_extra_modifiers_in_order() {
    let modifiers = vec![Modifier::new("size", "lg"), Modifier::new("align", "top")];
    let list = ClassList::compose("widget", "fancy", &modifiers);
    assert_eq!(
        list.tokens,
        vec![
            "widget".to_string(),
            "fancy".to_string(),
            "size-lg".to_string(),
            "align-top".to_string(),
        ]
    );
    assert_eq!(list.render(), "widget fancy size-lg align-top");
}

#[test]
fn compose_empty_extra_contributes_nothing() {
    let modifiers: Vec<Modifier> = Vec::new();
    let list = ClassList::compose("widget", "", &modifiers);
    assert_eq!(list.tokens, vec!["widget".to_string()]);
    assert_eq!(list.render(), "widget");
}

#[test]
fn compose_keeps_duplicate_tokens() {
    let modifiers = vec![Modifier::new("widget", "x"), Modifier::new("widget", "x")];
    let list = ClassList::compose("widget-x", "widget-x", &modifiers);
    assert_eq!(list.render(), "widget-x widget-x widget-x widget-x");
}

#[test]
fn push_skips_empty_token() {
    let mut list = ClassList::new();
    list.push("alpha");
    list.push("");
    list.push("beta");
    assert_eq!(list.tokens, vec!["alpha".to_string(), "beta".to_string()]);
    assert_eq!(list.render(), "alpha beta");
}

#[test]
fn modifier_renders_prefix_dash_value() {
    let m = Modifier::new("text-bg", "primary");
    assert_eq!(m.token(), "text-bg-primary");
}

#[test]
fn render_empty_list_is_empty() {
    let list = ClassList::new();
    assert_eq!(list.render(), "");
}

#[test]
fn render_single_token_has_no_spaces() {
    let mut list = ClassList::new();
    list.push("only");
    assert_eq!(list.render(), "only");
}
