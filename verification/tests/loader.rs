use swappy::config::Config;
use swappy::config::IniProp;
use swappy::config::IniSection;
use swappy::paint::PaintMode;

fn defaults_with(save_dir: &str) -> Config {
    Config {
        save_dir: save_dir.to_string(),
        save_filename_format: "swappy-%Y%m%d_%H%M%S.png".to_string(),
        line_size: 5,
        text_font: "sans-serif".to_string(),
        text_size: 20,
        show_panel: false,
        paint_mode: PaintMode::Brush,
        early_exit: false,
        fill_shape: false,
    }
}

fn prop(key: &str, value: &str) -> IniProp {
    IniProp { key: key.to_string(), value: value.to_string() }
}

fn section(name: &str, props: Vec<IniProp>) -> IniSection {
    IniSection { name: Some(name.to_string()), props }
}

#[test]
fn full_overlay() {
    let mut config = defaults_with("/home/u/Desktop");
    let doc = vec![section(
        "Default",
        vec![
            prop("save_dir", "/home/alice/Pictures"),
            prop("save_filename_format", "shot-%Y%m%d.png"),
            prop("line_size", "3"),
            prop("text_font", "monospace"),
            prop("text_size", "14"),
            prop("show_panel", "true"),
            prop("paint_mode", "arrow"),
            prop("early_exit", "false"),
            prop("fill_shape", "true"),
        ],
    )];
    config.apply_document(&doc);
    assert_eq!(config.save_dir, "/home/alice/Pictures");
    assert_eq!(config.save_filename_format, "shot-%Y%m%d.png");
    assert_eq!(config.line_size, 3);
    assert_eq!(config.text_font, "monospace");
    assert_eq!(config.text_size, 14);
    assert!(config.show_panel);
    assert_eq!(config.paint_mode, PaintMode::Arrow);
    assert!(!config.early_exit);
    assert!(config.fill_shape);
}

#[test]
fn invalid_paint_mode_keeps_default() {
    let mut config = defaults_with("/d");
    config.apply_document(&vec![section("Default", vec![prop("paint_mode", "squiggle")])]);
    assert_eq!(config, defaults_with("/d"));
}

#[test]
fn unknown_keys_ignored() {
    let mut config = defaults_with("/d");
    let doc = vec![
        section("Default", vec![prop("save_dir", "/tmp"), prop("foo", "bar")]),
        section("Extra", vec![prop("line_size", "99")]),
    ];
    config.apply_document(&doc);
    assert_eq!(config.save_dir, "/tmp");
    assert_eq!(config.line_size, 5);
    let expected = Config { save_dir: "/tmp".to_string(), ..defaults_with("/d") };
    assert_eq!(config, expected);
}

#[test]
fn empty_default_section_keeps_defaults() {
    let mut config = defaults_with("/d");
    config.apply_document(&vec![section("Default", vec![])]);
    assert_eq!(config, defaults_with("/d"));
}

#[test]
fn empty_document_keeps_defaults() {
    let mut config = defaults_with("/d");
    config.apply_document(&vec![]);
    assert_eq!(config, defaults_with("/d"));
}

#[test]
fn lowercase_section_name_not_accepted() {
    let mut config = defaults_with("/d");
    config.apply_document(&vec![section("default", vec![prop("save_dir", "/x")])]);
    assert_eq!(config, defaults_with("/d"));
}

#[test]
fn sectionless_lines_ignored() {
    let mut config = defaults_with("/d");
    let doc = vec![IniSection { name: None, props: vec![prop("save_dir", "/x")] }];
    config.apply_document(&doc);
    assert_eq!(config, defaults_with("/d"));
}

#[test]
fn bad_size_values_keep_defaults() {
    let mut config = defaults_with("/d");
    let doc = vec![section(
        "Default",
        vec![
            prop("line_size", "abc"),
            prop("text_size", "0"),
            prop("show_panel", "yes"),
            prop("early_exit", "maybe"),
            prop("fill_shape", "2"),
        ],
    )];
    config.apply_document(&doc);
    assert_eq!(config, defaults_with("/d"));
}

#[test]
fn later_value_wins() {
    let mut config = defaults_with("/d");
    let doc = vec![section(
        "Default",
        vec![prop("line_size", "3"), prop("line_size", "9")],
    )];
    config.apply_document(&doc);
    assert_eq!(config.line_size, 9);
}

#[test]
fn later_default_section_also_applies() {
    let mut config = defaults_with("/d");
    let doc = vec![
        section("Default", vec![prop("line_size", "3")]),
        section("Other", vec![prop("text_size", "1")]),
        section("Default", vec![prop("text_font", "serif")]),
    ];
    config.apply_document(&doc);
    assert_eq!(config.line_size, 3);
    assert_eq!(config.text_size, 20);
    assert_eq!(config.text_font, "serif");
}
