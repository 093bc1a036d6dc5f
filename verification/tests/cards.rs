use yew_bootstrap::card::Card;
use yew_bootstrap::card::CardBody;
use yew_bootstrap::card::CardBodyProps;
use yew_bootstrap::card::CardFooter;
use yew_bootstrap::card::CardFooterProps;
use yew_bootstrap::card::CardHeader;
use yew_bootstrap::card::CardHeaderProps;
use yew_bootstrap::card::CardLink;
use yew_bootstrap::card::CardLinkProps;
use yew_bootstrap::card::CardProps;
use yew_bootstrap::card::CardText;
use yew_bootstrap::card::CardTextProps;
use yew_bootstrap::card::CardTitle;
use yew_bootstrap::card::CardTitleProps;
use yew_bootstrap::card::HeaderSize;
use yew_bootstrap::color::Color;
use yew_bootstrap::node::Tag;

#[test]
fn card_with_text_bg_and_shadow() {
    let props = CardProps {
        class: "shadow".to_string(),
        text_bg_color: Some(Color::Primary),
        border_color: None,
        ..Default::default()
    };
    let n = Card::view(&props);
    assert_eq!(n.tag, Tag::Div);
    assert_eq!(
        n.classes.tokens,
        vec!["card".to_string(), "shadow".to_string(), "text-bg-primary".to_string()]
    );
    assert_eq!(n.class_attribute(), "card shadow text-bg-primary");
}

#[test]
fn card_with_border_color() {
    let props = CardProps { border_color: Some(Color::Danger), ..Default::default() };
    let n = Card::view(&props);
    assert_eq!(n.classes.tokens, vec!["card".to_string(), "border-danger".to_string()]);
}

#[test]
fn card_color_modifiers_keep_order() {
    let props = CardProps {
        text_bg_color: Some(Color::Dark),
        border_color: Some(Color::Light),
        ..Default::default()
    };
    let n = Card::view(&props);
    assert_eq!(
        n.classes.tokens,
        vec!["card".to_string(), "text-bg-dark".to_string(), "border-light".to_string()]
    );
}

#[test]
fn card_defaults_are_bare() {
    let n = Card::view(&CardProps::default());
    assert_eq!(n.tag, Tag::Div);
    assert_eq!(n.classes.tokens, vec!["card".to_string()]);
    assert_eq!(n.role, None);
    assert_eq!(n.aria_label, None);
    assert_eq!(n.href, None);
}

#[test]
fn aria_attributes_present_when_non_empty() {
    let props = CardProps {
        label: "featured".to_string(),
        role: "region".to_string(),
        ..Default::default()
    };
    let n = Card::view(&props);
    assert_eq!(n.aria_label, Some("featured".to_string()));
    assert_eq!(n.role, Some("region".to_string()));
}

#[test]
fn aria_policy_is_uniform_across_components() {
    let card = Card::view(&CardProps {
        label: "x".to_string(),
        role: "r".to_string(),
        ..Default::default()
    });
    let body = CardBody::view(&CardBodyProps {
        label: "x".to_string(),
        role: "r".to_string(),
        ..Default::default()
    });
    let header = CardHeader::view(&CardHeaderProps {
        label: "x".to_string(),
        role: "r".to_string(),
        ..Default::default()
    });
    let footer = CardFooter::view(&CardFooterProps {
        label: "x".to_string(),
        role: "r".to_string(),
        ..Default::default()
    });
    assert_eq!(card.aria_label, body.aria_label);
    assert_eq!(body.aria_label, header.aria_label);
    assert_eq!(header.aria_label, footer.aria_label);
    assert_eq!(card.role, body.role);
    assert_eq!(body.role, header.role);
    assert_eq!(header.role, footer.role);

    let empty_card = Card::view(&CardProps::default());
    let empty_body = CardBody::view(&CardBodyProps::default());
    assert_eq!(empty_card.aria_label, None);
    assert_eq!(empty_body.aria_label, None);
    assert_eq!(empty_card.role, None);
    assert_eq!(empty_body.role, None);
}

#[test]
fn card_body_header_footer_base_classes() {
    let body = CardBody::view(&CardBodyProps::default());
    assert_eq!(body.classes.tokens, vec!["card-body".to_string()]);
    assert_eq!(body.tag, Tag::Div);
    let header = CardHeader::view(&CardHeaderProps::default());
    assert_eq!(header.classes.tokens, vec!["card-header".to_string()]);
    assert_eq!(header.tag, Tag::Div);
    let footer = CardFooter::view(&CardFooterProps::default());
    assert_eq!(footer.classes.tokens, vec!["card-footer".to_string()]);
    assert_eq!(footer.tag, Tag::Div);
}

#[test]
fn card_title_tag_follows_header_size() {
    let cases = [
        (HeaderSize::One, Tag::H1, "h1"),
        (HeaderSize::Two, Tag::H2, "h2"),
        (HeaderSize::Three, Tag::H3, "h3"),
        (HeaderSize::Four, Tag::H4, "h4"),
        (HeaderSize::Five, Tag::H5, "h5"),
    ];
    for (size, tag, name) in cases {
        let n = CardTitle::view(&CardTitleProps { size, ..Default::default() });
        assert_eq!(n.tag, tag);
        assert_eq!(n.tag.name(), name);
        assert_eq!(n.classes.tokens, vec!["card-title".to_string()]);
    }
}

#[test]
fn card_title_defaults_to_level_one() {
    assert_eq!(HeaderSize::default(), HeaderSize::One);
    let n = CardTitle::view(&CardTitleProps::default());
    assert_eq!(n.tag, Tag::H1);
}

#[test]
fn card_text_is_a_paragraph() {
    let n = CardText::view(&CardTextProps { class: "lead".to_string() });
    assert_eq!(n.tag, Tag::P);
    assert_eq!(n.classes.tokens, vec!["card-text".to_string(), "lead".to_string()]);
}

#[test]
fn card_link_carries_href_verbatim() {
    let n = CardLink::view(&CardLinkProps {
        href: "https://example.net/a".to_string(),
        ..Default::default()
    });
    assert_eq!(n.tag, Tag::A);
    assert_eq!(n.classes.tokens, vec!["card-link".to_string()]);
    assert_eq!(n.href, Some("https://example.net/a".to_string()));
}

#[test]
fn card_link_href_defaults_to_empty() {
    let n = CardLink::view(&CardLinkProps::default());
    assert_eq!(n.href, Some(String::new()));
}

#[test]
fn color_names_are_lowercase_roles() {
    let cases = [
        (Color::Primary, "primary"),
        (Color::Secondary, "secondary"),
        (Color::Success, "success"),
        (Color::Danger, "danger"),
        (Color::Warning, "warning"),
        (Color::Info, "info"),
        (Color::Light, "light"),
        (Color::Dark, "dark"),
    ];
    for (color, name) in cases {
        assert_eq!(color.name(), name);
    }
}

#[test]
fn card_view_is_idempotent() {
    let props = CardProps {
        class: "shadow".to_string(),
        text_bg_color: Some(Color::Info),
        border_color: Some(Color::Warning),
        label: "summary".to_string(),
        role: "region".to_string(),
    };
    let first = Card::view(&props);
    let second = Card::view(&props);
    assert_eq!(first.tag, second.tag);
    assert_eq!(first.classes.tokens, second.classes.tokens);
    assert_eq!(first.class_attribute(), second.class_attribute());
    assert_eq!(first.role, second.role);
    assert_eq!(first.aria_label, second.aria_label);
    assert_eq!(first.href, second.href);
}
