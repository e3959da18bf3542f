use templater::config::{check_config, create_default_config, create_manual_config, init_config, InitialConfig};
use templater::error::AppError;
use templater::paths::{APP_VERSION_STRING, TEMPLATE_DEFAULT_PATH, TEMPLATE_FOLDER_NAME};
use templater::store::plan_save;

fn under(base: &str, rest: &str) -> String {
    let mut p = std::path::PathBuf::from(base);
    p.push(rest);
    p.to_string_lossy().into_owned()
}

fn home_text() -> String {
    home::home_dir().unwrap().to_string_lossy().into_owned()
}

#[test]
fn template_config_tests_test_initial_config_new() {
    let test_version: &str = "1.0";
    let test_template_absolute_path = under("/home/user", "templater/templates");
    let test_initialized = false;

    let initial_config = InitialConfig::new("1.0", "/home/user").unwrap();

    assert_eq!(initial_config.version, test_version);
    assert_eq!(initial_config.template_absolute_path, test_template_absolute_path);
    assert_eq!(initial_config.initialized, test_initialized);
}

#[test]
fn mod_test_initial_config_new() {
    let test_template_absolute_path = under("/home/user", "templater/templates");

    let initial_config = InitialConfig::new("1.0", "/home/user").unwrap();

    assert_eq!(initial_config.version, "1.0");
    assert_eq!(initial_config.template_absolute_path, test_template_absolute_path);
    assert!(!initial_config.initialized);
}

#[test]
fn template_config_tests_test_initial_config_default() {
    let initial_config = InitialConfig::default_value().unwrap();
    let test_template_absolute_path = under(&home_text(), TEMPLATE_DEFAULT_PATH);

    assert_eq!(initial_config.version, APP_VERSION_STRING);
    assert_eq!(initial_config.template_absolute_path, test_template_absolute_path);
    assert!(!initial_config.initialized)
}

#[test]
fn mod_test_initial_config_default() {
    let initial_config = InitialConfig::default_value().unwrap();
    let test_template_absolute_path = under(&home_text(), TEMPLATE_DEFAULT_PATH);

    assert_eq!(initial_config.version, APP_VERSION_STRING);
    assert_eq!(initial_config.template_absolute_path, test_template_absolute_path);
    assert_eq!(initial_config.initialized, false)
}

#[test]
fn template_config_tests_test_create_default_value_config() {
    let initial_config = create_default_config().unwrap();
    let test_template_absolute_path = under(&home_text(), TEMPLATE_DEFAULT_PATH);

    assert_eq!(initial_config.version, APP_VERSION_STRING);
    assert_eq!(initial_config.template_absolute_path, test_template_absolute_path);
    assert_eq!(initial_config.initialized, true)
}

#[test]
fn mod_test_create_default_value_config() {
    let initial_config = create_default_config().unwrap();
    let test_template_absolute_path = under(&home_text(), ".config/templater/templates");

    assert_eq!(initial_config.version, APP_VERSION_STRING);
    assert_eq!(initial_config.template_absolute_path, test_template_absolute_path);
    assert!(initial_config.initialized)
}

#[test]
fn template_config_tests_test_create_manual_config() {
    let test_template_absolute_path = under("/tmp", "templater/templates");

    let initial_config = create_manual_config("/tmp").unwrap();

    assert_eq!(initial_config.version, APP_VERSION_STRING);
    assert_eq!(initial_config.template_absolute_path, test_template_absolute_path);
    assert_eq!(initial_config.initialized, true)
}

#[test]
fn mod_test_create_manual_config() {
    let initial_config = create_manual_config("/tmp").unwrap();

    assert_eq!(initial_config.version, APP_VERSION_STRING);
    assert_eq!(initial_config.template_absolute_path, "/tmp/templater/templates");
    assert!(initial_config.initialized)
}

// The template root is created by the caller before the record is stored; the
// guard is asked about a root that exists.
#[test]
fn template_config_tests_test_check_config() {
    let test_template_absolute_path = under("/tmp", "templater/templates");

    let initial_config = create_manual_config("/tmp").unwrap();

    assert_eq!(initial_config.version, APP_VERSION_STRING);
    assert_eq!(initial_config.template_absolute_path, test_template_absolute_path);
    assert_eq!(initial_config.initialized, true);

    match check_config(&initial_config, true) {
        Ok(x) => x,
        Err(error) => panic!("Config is invalid: {:?}", error),
    }
}

#[test]
fn mod_test_check_config() {
    let initial_config = create_manual_config("/tmp").unwrap();

    assert_eq!(initial_config.version, APP_VERSION_STRING);
    assert_eq!(initial_config.template_absolute_path, "/tmp/templater/templates");
    assert!(initial_config.initialized);

    match check_config(&initial_config, true) {
        Ok(x) => x,
        Err(error) => panic!("Config is invalid: {:?}", error),
    }
}

#[test]
fn test_init_function() {
    let mut path = std::path::PathBuf::from("/tmp/");
    path.push("app");
    let base = path.to_str().unwrap().to_string();
    path.push("templater/templates");

    let config = init_config(&Some(base)).unwrap();

    assert_eq!(config.template_absolute_path, path.to_str().unwrap());
    assert_eq!(config.version, APP_VERSION_STRING);
    assert!(config.initialized);
}

#[test]
fn test_init_function_default_path() {
    let config = init_config(&None).unwrap();

    assert_eq!(config.template_absolute_path, format!("{}/.config/{}", home_text(), "templater/templates"));
    assert_eq!(config.version, APP_VERSION_STRING);
    assert!(config.initialized);
}

// The copy itself is made by the caller into the planned destination; the
// files land at `<destination>/test<i>.txt`.
#[test]
fn test_save_template_function() {
    let config = init_config(&Some("/tmp/app".to_string())).unwrap();
    let plan = plan_save(&config, "test", false, false).unwrap();
    assert!(!plan.replace_existing);
    for i in 0..10 {
        assert_eq!(
            format!("{}/test{}.txt", plan.destination, i),
            format!("/tmp/app/templater/{}/test/test{}.txt", TEMPLATE_FOLDER_NAME, i)
        );
    }
}

#[test]
fn guard_refuses_missing_root() {
    let config = create_manual_config("/tmp").unwrap();
    assert_eq!(check_config(&config, false), Err(AppError::TemplateNotInitialized));
}
