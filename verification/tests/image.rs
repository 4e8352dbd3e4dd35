use card_image::{Attribute, CardImage, CardImageProps, ClassSet, ImageVariant, IMAGE_STYLE};

fn set(tokens: &[&str]) -> ClassSet {
    ClassSet::from_vec(tokens.iter().map(|t| t.to_string()).collect())
}

fn strings(tokens: &[&str]) -> Vec<String> {
    tokens.iter().map(|t| t.to_string()).collect()
}

fn attribute(name: &'static str, value: &str) -> Attribute {
    Attribute { name, value: value.to_string() }
}

#[test]
fn new_props_have_the_defaults() {
    let props = CardImageProps::new("imgsrc.jpg".to_string());
    assert_eq!(props.variant, ImageVariant::Default);
    assert_eq!(props.class, ClassSet::new());
    assert_eq!(props.src, "imgsrc.jpg");
    assert_eq!(props.alt, "");
}

#[test]
fn top_image_with_extra_class() {
    let mut props = CardImageProps::new("imgsrc.jpg".to_string());
    props.variant = ImageVariant::Top;
    props.alt = "desc".to_string();
    props.class = set(&["foo"]);
    let node = CardImage(&props);
    assert_eq!(node.class.to_vec(), strings(&["card-img-top", "foo"]));
    assert_eq!(node.attributes[0], attribute("data-source", "imgsrc.jpg"));
    assert_eq!(node.attributes[2], attribute("alt", "desc"));
}

#[test]
fn default_image_has_only_card_img() {
    let props = CardImageProps::new("imgsrc.jpg".to_string());
    let node = CardImage(&props);
    assert_eq!(node.class.to_vec(), strings(&["card-img"]));
}

#[test]
fn bottom_image_has_card_img_bottom_first() {
    let mut props = CardImageProps::new("a.png".to_string());
    props.variant = ImageVariant::Bottom;
    props.class = set(&["rounded", "shadow"]);
    let node = CardImage(&props);
    assert_eq!(node.class.to_vec(), strings(&["card-img-bottom", "rounded", "shadow"]));
}

#[test]
fn image_is_an_img_without_content() {
    let node = CardImage(&CardImageProps::new("a.png".to_string()));
    assert_eq!(node.tag, "img");
    assert!(node.children.is_empty());
}

#[test]
fn image_attributes_by_name_and_order() {
    let mut props = CardImageProps::new("imgsrc.jpg".to_string());
    props.alt = "desc".to_string();
    let node = CardImage(&props);
    assert_eq!(
        node.attributes,
        vec![
            attribute("data-source", "imgsrc.jpg"),
            attribute("style", "height: 180px; width: 100%; display: block;"),
            attribute("alt", "desc"),
        ]
    );
}

#[test]
fn image_source_is_not_the_load_attribute() {
    let node = CardImage(&CardImageProps::new("imgsrc.jpg".to_string()));
    assert!(node.attributes.iter().all(|a| a.name != "src"));
    assert_eq!(node.attributes.iter().filter(|a| a.name == "data-source").count(), 1);
}

#[test]
fn image_style_is_the_fixed_box() {
    assert_eq!(IMAGE_STYLE, "height: 180px; width: 100%; display: block;");
    let mut props = CardImageProps::new("a.png".to_string());
    props.variant = ImageVariant::Bottom;
    props.class = set(&["wide"]);
    let node = CardImage(&props);
    assert_eq!(node.attributes[1], attribute("style", IMAGE_STYLE));
}

#[test]
fn default_description_is_written_empty() {
    let node = CardImage(&CardImageProps::new("a.png".to_string()));
    assert_eq!(node.attributes.len(), 3);
    assert_eq!(node.attributes[2], attribute("alt", ""));
}

#[test]
fn empty_source_is_passed_through() {
    let node = CardImage(&CardImageProps::new(String::new()));
    assert_eq!(node.attributes[0], attribute("data-source", ""));
    assert_eq!(node.class.to_vec(), strings(&["card-img"]));
}

#[test]
fn source_and_description_are_taken_verbatim() {
    let mut props = CardImageProps::new("  /a b/c.jpg?x=1&y=2 ".to_string());
    props.alt = "Ünïcode \"alt\" <text>".to_string();
    let node = CardImage(&props);
    assert_eq!(node.attributes[0].value, "  /a b/c.jpg?x=1&y=2 ");
    assert_eq!(node.attributes[2].value, "Ünïcode \"alt\" <text>");
}

#[test]
fn image_keeps_a_repeated_base_class() {
    let mut props = CardImageProps::new("a.png".to_string());
    props.class = set(&["card-img", "foo", "foo"]);
    let node = CardImage(&props);
    assert_eq!(node.class.to_vec(), strings(&["card-img", "card-img", "foo", "foo"]));
    assert_eq!(node.class.len(), 4);
}

#[test]
fn image_does_not_change_its_props() {
    let mut props = CardImageProps::new("imgsrc.jpg".to_string());
    props.variant = ImageVariant::Top;
    props.class = set(&["foo"]);
    let first = CardImage(&props);
    let second = CardImage(&props);
    assert!(first == second);
    assert_eq!(props.class, set(&["foo"]));
    assert_eq!(props.variant, ImageVariant::Top);
    assert_eq!(props.src, "imgsrc.jpg");
    assert_eq!(props.alt, "");
}
