use cromwell::config::Config;
use dirs::home_dir;

#[test]
fn test_init_config() {
    let config = Config::new(None).ok().unwrap();
    let home = home_dir().unwrap();
    let home = home.to_str().expect("Could not PathBuf to str");

    assert_eq!(config.image_path, format!("{}/.cromwell/containers", home))
}

#[test]
fn config_for_a_home_directory() {
    let config = Config::with_home("/home/u", None);
    assert_eq!(config.base_dir, "/home/u/.cromwell");
    assert_eq!(config.image_path, "/home/u/.cromwell/containers");
    assert_eq!(config.container_path, "/home/u/.cromwell/containers");
    let given = Config::with_home("/home/u", Some("/var/lib/c"));
    assert_eq!(given.base_dir, "/home/u/.cromwell");
    assert_eq!(given.image_path, "/var/lib/c");
    assert_eq!(given.container_path, "/var/lib/c");
}
