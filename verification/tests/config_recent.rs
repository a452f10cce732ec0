use linuxfs::config::{validate_loaded, AppConfig, ConfigStore, MAX_RECENT_IMAGES};
use linuxfs::error::ErrorCategory;

#[test]
fn recent_images_are_bounded_most_recent_first_and_without_repeats() {
    let mut config = AppConfig::default();
    for index in 0..12 {
        config.record_recent_image(format!("disk-{index}.img"));
    }
    assert_eq!(config.recent_images.len(), MAX_RECENT_IMAGES);
    assert_eq!(config.recent_images[0], "disk-11.img");
    assert_eq!(config.recent_images[9], "disk-2.img");
    config.record_recent_image("disk-5.img".to_owned());
    assert_eq!(config.recent_images[0], "disk-5.img");
    assert_eq!(
        config.recent_images.iter().filter(|path| *path == "disk-5.img").count(),
        1
    );
    assert_eq!(config.recent_images.len(), MAX_RECENT_IMAGES);
}

#[test]
fn loaded_configurations_need_the_current_version() {
    let mut config = AppConfig::default();
    config.recent_images = (0..15).map(|index| format!("{index}.img")).collect();
    let loaded = validate_loaded(config.clone()).expect("current version");
    assert_eq!(loaded.recent_images.len(), MAX_RECENT_IMAGES);
    config.config_version = 99;
    let error = validate_loaded(config).expect_err("unknown version");
    assert_eq!(error.category(), ErrorCategory::Configuration);
    assert_eq!(error.to_string(), "unsupported configuration version 99");
    assert_eq!(ConfigStore::new("/tmp/x/config.toml".to_owned()).path(), "/tmp/x/config.toml");
}
