use snipboard::qr::{banner_for, compose_banner, share_image, visit_banner};

#[test]
fn share_image_is_svg_in_the_page_colours() {
    let image = share_image("hello").unwrap();
    assert!(image.starts_with("<?xml version=\"1.0\" standalone=\"yes\"?><svg "));
    assert!(image.ends_with("\"/></svg>"));
    assert!(image.contains("fill=\"#eee\""));
    assert!(image.contains("fill=\"transparent\""));
    assert_ne!(image, "hello");
}

#[test]
fn share_image_has_no_quiet_zone() {
    // the smallest code has 21 modules a side, drawn 8 units each
    let image = share_image("hi").unwrap();
    assert!(image.contains("width=\"168\" height=\"168\""));
}

#[test]
fn share_image_is_the_same_for_the_same_text() {
    assert_eq!(share_image("same text"), share_image("same text"));
    assert_ne!(share_image("one text"), share_image("another text"));
}

#[test]
fn share_image_of_too_much_text_is_none() {
    let long = "a".repeat(5000);
    assert_eq!(share_image(&long), None);
}

#[test]
fn banner_puts_the_url_above_the_code() {
    assert_eq!(compose_banner("http://h/", "##\n##"), "Visit <http://h/>\n##\n##");
    assert_eq!(banner_for("u", Some("c".to_string())), Some("Visit <u>\nc".to_string()));
    assert_eq!(banner_for("u", None), None);
}

#[test]
fn visit_banner_draws_blocks_below_the_url() {
    let url = "http://10.0.0.2/";
    let banner = visit_banner(url).unwrap();
    let head = format!("Visit <{}>\n", url);
    assert!(banner.starts_with(&head));
    let code = &banner[head.len()..];
    assert!(code.contains('\u{2588}'));
    // sixteen bytes fit the smallest code: 21 modules and a quiet zone of
    // 4 on each side, one character each
    let lines: Vec<&str> = code.split('\n').collect();
    assert_eq!(lines.len(), 29);
    assert!(lines.iter().all(|l| l.chars().count() == 29));
}

#[test]
fn visit_banner_of_too_long_a_url_is_none() {
    let long = format!("http://{}/", "a".repeat(5000));
    assert_eq!(visit_banner(&long), None);
}
