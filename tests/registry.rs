use std::cmp::Ordering;
use templater::commands::{save_type, RemoteGetArgs};
use templater::config::{
    check_config, create_default_config_from, init_config_from, InitialConfig,
};
use templater::error::AppError;
use templater::names::{name_less, same_name};
use templater::paths::join_path;
use templater::report::{show_config_lines, show_templates_lines};
use templater::store::{commit_save, plan_load, plan_save};
use templater::sync::{plan_sync, sync_save_outcome};
use templater::template::{Template, TemplateType};

fn fresh(root: &str) -> InitialConfig {
    let mut c = InitialConfig::new("0.1.0", root).unwrap();
    c.initialized = true;
    c
}

fn strings(v: &[&str]) -> Vec<String> {
    v.iter().map(|s| s.to_string()).collect()
}

#[test]
fn default_init_twice_gives_same_root() {
    let first = init_config_from(&None, Some("/home/u".to_string())).unwrap();
    let second = init_config_from(&None, Some("/home/u".to_string())).unwrap();
    assert_eq!(first.template_absolute_path, "/home/u/.config/templater/templates");
    assert_eq!(first.template_absolute_path, second.template_absolute_path);
    assert!(first.initialized && second.initialized);
}

#[test]
fn default_init_without_home_fails() {
    assert_eq!(init_config_from(&None, None).unwrap_err(), AppError::HomeDirectoryNotFound);
    assert_eq!(create_default_config_from(None).unwrap_err(), AppError::HomeDirectoryNotFound);
}

#[test]
fn manual_init_ignores_home() {
    let c = init_config_from(&Some("/srv/".to_string()), None).unwrap();
    assert_eq!(c.template_absolute_path, "/srv/templater/templates");
    assert!(c.initialized);
    assert!(c.templates.is_empty());
}

#[test]
fn save_then_load_use_the_same_directory() {
    let mut c = fresh("/data");
    let plan = plan_save(&c, "t1", false, false).unwrap();
    assert_eq!(plan.destination, "/data/templater/templates/t1");
    commit_save(&mut c, "t1", TemplateType::Default);
    assert_eq!(plan_load(&c, "t1").unwrap(), plan.destination);
}

#[test]
fn load_of_unknown_template_fails() {
    let mut c = fresh("/data");
    commit_save(&mut c, "t1", TemplateType::Default);
    assert_eq!(plan_load(&c, "t2"), Err(AppError::TemplateDoesNotExist));
}

#[test]
fn second_save_without_overwrite_fails() {
    let mut c = fresh("/data");
    let first = plan_save(&c, "t1", false, false).unwrap();
    assert!(!first.replace_existing);
    commit_save(&mut c, "t1", TemplateType::Default);
    assert_eq!(plan_save(&c, "t1", true, false).unwrap_err(), AppError::TemplateAlreadyExists);
    let forced = plan_save(&c, "t1", true, true).unwrap();
    assert!(forced.replace_existing);
    assert_eq!(forced.destination, "/data/templater/templates/t1");
    commit_save(&mut c, "t1", TemplateType::Default);
    assert_eq!(c.template_names(), strings(&["t1"]));
}

#[test]
fn overwrite_of_absent_template_removes_nothing() {
    let c = fresh("/data");
    assert!(!plan_save(&c, "t1", false, true).unwrap().replace_existing);
}

#[test]
fn names_are_sorted_and_unique_whatever_the_order() {
    let orders = [["zeta", "alpha", "mid"], ["alpha", "mid", "zeta"], ["mid", "zeta", "alpha"]];
    for order in orders.iter() {
        let mut c = fresh("/data");
        for n in order.iter() {
            commit_save(&mut c, n, TemplateType::Default);
        }
        commit_save(&mut c, "mid", TemplateType::Remote);
        assert_eq!(c.template_names(), strings(&["alpha", "mid", "zeta"]));
        assert!(c.is_well_formed());
    }
}

#[test]
fn register_replaces_the_type_of_an_existing_name() {
    let mut c = fresh("/data");
    assert_eq!(c.register_template("b", TemplateType::Default), 0);
    assert_eq!(c.register_template("a", TemplateType::Default), 0);
    assert_eq!(c.register_template("b", TemplateType::Remote), 1);
    assert_eq!(c.templates.len(), 2);
    assert_eq!(c.templates[1].template_type, TemplateType::Remote);
}

#[test]
fn normalize_sorts_and_removes_duplicates() {
    let mut c = fresh("/data");
    c.templates = vec![
        Template::new("b", TemplateType::Default),
        Template::new("a", TemplateType::Default),
        Template::new("b", TemplateType::Remote),
        Template::new("", TemplateType::Default),
    ];
    assert!(!c.is_well_formed());
    c.normalize_templates();
    assert!(c.is_well_formed());
    assert_eq!(c.template_names(), strings(&["", "a", "b"]));
}

#[test]
fn guard_refuses_uninitialized_record() {
    let c = InitialConfig::new("0.1.0", "/data").unwrap();
    assert_eq!(check_config(&c, true), Err(AppError::TemplateNotInitialized));
    assert_eq!(check_config(&c, false), Err(AppError::TemplateNotInitialized));
    assert_eq!(check_config(&fresh("/data"), true), Ok(()));
}

#[test]
fn sync_skipping_missing_saves_the_rest() {
    let manifest = strings(&["t1", "t2", "t3"]);
    let plan = plan_sync(&manifest, &vec![true, false, true], true);
    assert_eq!(plan.to_save, strings(&["t1", "t3"]));
    assert_eq!(plan.failure, None);
    let mut c = fresh("/data");
    for n in plan.to_save.iter() {
        commit_save(&mut c, n, TemplateType::Remote);
    }
    assert_eq!(c.template_names(), strings(&["t1", "t3"]));
    assert_eq!(plan_load(&c, "t2"), Err(AppError::TemplateDoesNotExist));
}

#[test]
fn sync_strict_stops_at_missing() {
    let manifest = strings(&["t1", "t2", "t3"]);
    let plan = plan_sync(&manifest, &vec![true, false, true], false);
    assert_eq!(plan.to_save, strings(&["t1"]));
    assert_eq!(plan.failure, Some(AppError::TemplateDoesNotExist));
}

#[test]
fn sync_of_complete_catalogue_saves_all() {
    let manifest = strings(&["b", "a"]);
    let plan = plan_sync(&manifest, &vec![true, true], false);
    assert_eq!(plan.to_save, strings(&["b", "a"]));
    assert_eq!(plan.failure, None);
    let empty = plan_sync(&Vec::new(), &Vec::new(), false);
    assert!(empty.to_save.is_empty() && empty.failure.is_none());
}

#[test]
fn sync_passes_over_existing_templates_only() {
    assert_eq!(sync_save_outcome(Ok(())), Ok(()));
    assert_eq!(sync_save_outcome(Err(AppError::TemplateAlreadyExists)), Ok(()));
    assert_eq!(
        sync_save_outcome(Err(AppError::Io("disk full".to_string()))),
        Err(AppError::Io("disk full".to_string()))
    );
}

#[test]
fn name_order_is_byte_order() {
    assert!(name_less("alpha", "mid"));
    assert!(!name_less("mid", "alpha"));
    assert!(name_less("ab", "abc"));
    assert!(!name_less("abc", "abc"));
    assert!(name_less("Z", "a"));
    assert!(name_less("z", "é"));
    assert!(same_name("é", "é"));
    assert!(!same_name("a", "b"));
}

#[test]
fn template_identity_is_its_name() {
    let a = Template::new("x", TemplateType::Default);
    let b = Template::new("x", TemplateType::Remote);
    let c = Template::new("y", TemplateType::Default);
    assert!(a == b);
    assert!(a != c);
    assert_eq!(a.partial_cmp(&b), Some(Ordering::Equal));
    assert_eq!(a.partial_cmp(&c), Some(Ordering::Less));
    assert_eq!(c.partial_cmp(&b), Some(Ordering::Greater));
}

#[test]
fn join_adds_one_separator() {
    assert_eq!(join_path("/tmp", "x"), "/tmp/x");
    assert_eq!(join_path("/tmp/", "x"), "/tmp/x");
    assert_eq!(join_path("", "x"), "x");
    assert_eq!(fresh("/r").temp_dir(), "/r/templater/templates/temp");
    assert_eq!(fresh("/r").template_dir("n"), "/r/templater/templates/n");
}

#[test]
fn error_messages() {
    assert_eq!(AppError::Io("gone".to_string()).message(), "IO Error: gone");
    assert_eq!(AppError::TemplateInvalidConfig.message(), "Template configuration is invalid.");
    assert!(AppError::TemplateNotInitialized.message().contains("templater init"));
    assert!(AppError::TemplateAlreadyExists.message().contains("--overwrite"));
}

#[test]
fn show_lines() {
    let mut c = fresh("/r");
    assert_eq!(show_templates_lines(&c), strings(&["No templates found"]));
    commit_save(&mut c, "b", TemplateType::Default);
    commit_save(&mut c, "a", TemplateType::Remote);
    assert_eq!(show_templates_lines(&c), strings(&["- a", "- b"]));
    assert_eq!(
        show_config_lines(&c, "/cfg/config.toml"),
        strings(&[
            "Config file path: /cfg/config.toml",
            "Version: 0.1.0",
            "Template directory: /r/templater/templates",
            "Templates: ",
            "\t- a",
            "\t- b",
        ])
    );
}

#[test]
fn command_defaults() {
    let args = RemoteGetArgs { url: "https://example.org/t.git".to_string(), skip_config_error: None };
    assert!(!args.skip_missing());
    let args = RemoteGetArgs { url: String::new(), skip_config_error: Some(true) };
    assert!(args.skip_missing());
    assert_eq!(save_type(None), TemplateType::Default);
    assert_eq!(save_type(Some(TemplateType::Remote)), TemplateType::Remote);
}
