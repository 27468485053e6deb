use swappy::config::Config;
use swappy::probe::get_default_save_dir;

#[test]
fn loading_twice_gives_equal_records() {
    let first = Config::new("test");
    let second = Config::new("test");
    assert_eq!(first, second);
}

#[test]
fn loaded_record_is_well_formed() {
    let config = Config::new("test");
    assert!(config.line_size >= 1);
    assert!(config.text_size >= 1);
    assert!(!config.save_filename_format.is_empty());
}

#[test]
fn defaults_record_is_well_formed() {
    let config = Config::default();
    assert!(config.line_size >= 1);
    assert!(config.text_size >= 1);
    assert_eq!(config.save_filename_format, "swappy-%Y%m%d_%H%M%S.png");
    assert_eq!(config.text_font, "sans-serif");
}

#[test]
fn probing_twice_gives_equal_paths() {
    assert_eq!(get_default_save_dir(), get_default_save_dir());
}
