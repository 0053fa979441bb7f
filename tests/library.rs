use vex::config::QemuConfig;
use vex::error::VexError;
use vex::exec::{
    check_version, effective_args, exit_result, startup_message, version_warning, VersionCheck,
};
use vex::locator::{config_file, config_file_name, config_name_of_file, validate_name};
use vex::store::{
    load_result, needs_confirmation, rename_actions, rename_decision, require_existing,
    select_configs, RenameDecision, StoreAction,
};
use vex::report::{decimal, detail_lines, join_with_spaces, listing_lines, rule_line};
use vex::subst::{lookup_var, substitute_arg, substitute_params};

fn strings(items: &[&str]) -> Vec<String> {
    items.iter().map(|s| s.to_string()).collect()
}

fn env(pairs: &[(&str, &str)]) -> Vec<(String, String)> {
    pairs.iter().map(|(k, v)| (k.to_string(), v.to_string())).collect()
}

fn sample(desc: Option<&str>) -> QemuConfig {
    QemuConfig::new(
        "qemu-system-x86_64".to_string(),
        strings(&["-m", "1G", "-hda", "${DISK}"]),
        desc.map(|d| d.to_string()),
        Some("8.2.0".to_string()),
    )
}

#[test]
fn valid_names_are_accepted() {
    assert_eq!(validate_name("my-vm"), Ok(()));
    assert_eq!(validate_name("ubuntu 22.04"), Ok(()));
    assert_eq!(validate_name("..a"), Ok(()));
}

#[test]
fn names_leaving_the_directory_are_refused() {
    for n in ["", ".", "..", "a/b", "../x", "a\\b", "nul\0byte"] {
        assert_eq!(validate_name(n), Err(VexError::InvalidName), "{:?}", n);
    }
}

#[test]
fn file_name_and_path_of_a_name() {
    assert_eq!(config_file_name("vm").unwrap(), "vm.json");
    assert_eq!(config_file("/home/u/.config/vex", "vm").unwrap(), "/home/u/.config/vex/vm.json");
    assert_eq!(config_file("/d", "a/b"), Err(VexError::InvalidName));
}

#[test]
fn directory_entries_map_back_to_names() {
    assert_eq!(config_name_of_file("vm.json"), Some("vm".to_string()));
    assert_eq!(config_name_of_file("a.b.json"), Some("a.b".to_string()));
    assert_eq!(config_name_of_file("vm.txt"), None);
    assert_eq!(config_name_of_file(".json"), None);
    assert_eq!(config_name_of_file("json"), None);
    assert_eq!(config_name_of_file("..json"), None);
    let f = config_file_name("round").unwrap();
    assert_eq!(config_name_of_file(&f), Some("round".to_string()));
}

#[test]
fn missing_variable_keeps_placeholder() {
    let out = substitute_params(&strings(&["--id=${FOO}"]), &env(&[]));
    assert_eq!(out, strings(&["--id=${FOO}"]));
}

#[test]
fn present_variable_is_substituted() {
    let out = substitute_params(&strings(&["--id=${FOO}"]), &env(&[("FOO", "bar")]));
    assert_eq!(out, strings(&["--id=bar"]));
}

#[test]
fn arguments_without_placeholders_are_unchanged() {
    let args = strings(&["-m", "1G", "$HOME", "{x}", "$ {A}", ""]);
    assert_eq!(substitute_params(&args, &env(&[("HOME", "/root"), ("A", "1")])), args);
}

#[test]
fn several_placeholders_in_one_argument() {
    let e = env(&[("A", "1"), ("B", "two")]);
    assert_eq!(substitute_arg("${A}-${B}-${C}", &e), "1-two-${C}");
    assert_eq!(substitute_arg("$${A}}", &e), "$1}");
    assert_eq!(substitute_arg("${}${A", &e), "${}${A");
    assert_eq!(substitute_arg("é${B}ü", &e), "étwoü");
}

#[test]
fn substituted_values_are_not_scanned_again() {
    let e = env(&[("OUTER", "${INNER}"), ("INNER", "deep")]);
    assert_eq!(substitute_arg("x=${OUTER}", &e), "x=${INNER}");
}

#[test]
fn substitution_keeps_length_and_order() {
    let e = env(&[("DISK", "disk.img")]);
    let out = substitute_params(&strings(&["-hda", "${DISK}", "-m", "${MEM}"]), &e);
    assert_eq!(out, strings(&["-hda", "disk.img", "-m", "${MEM}"]));
}

#[test]
fn lookup_takes_the_first_entry() {
    let e = env(&[("A", "1"), ("A", "2")]);
    assert_eq!(lookup_var(&e, &"A".to_string()), Some("1".to_string()));
    assert_eq!(lookup_var(&e, &"B".to_string()), None);
}

#[test]
fn debug_flag_appends_two_tokens() {
    let e = env(&[("DISK", "d.img")]);
    let args = strings(&["-hda", "${DISK}"]);
    assert_eq!(effective_args(&args, &e, false), strings(&["-hda", "d.img"]));
    assert_eq!(effective_args(&args, &e, true), strings(&["-hda", "d.img", "-s", "-S"]));
    assert_eq!(effective_args(&Vec::new(), &e, true), strings(&["-s", "-S"]));
}

#[test]
fn exit_code_is_propagated() {
    assert_eq!(exit_result(false, Some(3)), Err(VexError::ExecutionFailed(3)));
    assert_eq!(exit_result(false, None), Err(VexError::ExecutionFailed(-1)));
    assert_eq!(exit_result(true, Some(0)), Ok(()));
}

#[test]
fn version_drift_is_classified() {
    let saved = Some("8.2.0".to_string());
    assert!(matches!(check_version(&None, Some("9.0".to_string())), VersionCheck::NotRecorded));
    assert!(matches!(check_version(&saved, None), VersionCheck::Undetected));
    assert!(matches!(check_version(&saved, Some("8.2.0".to_string())), VersionCheck::Match));
    match check_version(&saved, Some("9.0.1".to_string())) {
        VersionCheck::Mismatch { saved, current } => {
            assert_eq!(saved, "8.2.0");
            assert_eq!(current, "9.0.1");
        }
        other => panic!("unexpected {:?}", other),
    }
}

#[test]
fn version_warnings_name_both_versions() {
    let check = VersionCheck::Mismatch { saved: "8.2.0".to_string(), current: "9.0.1".to_string() };
    let lines = version_warning(&check);
    assert_eq!(lines.len(), 5);
    assert_eq!(lines[0], "WARNING: Version mismatch!");
    assert_eq!(lines[1], "   Configuration saved with QEMU 8.2.0");
    assert_eq!(lines[2], "   Current system has QEMU 9.0.1");
    assert_eq!(version_warning(&VersionCheck::Undetected).len(), 2);
    assert!(version_warning(&VersionCheck::Match).is_empty());
    assert!(version_warning(&VersionCheck::NotRecorded).is_empty());
}

#[test]
fn startup_banner_lines() {
    let c = sample(Some("test box"));
    let args = strings(&["-m", "1G"]);
    assert_eq!(startup_message("vm", &c, &args, false, false), strings(&["Starting configuration 'vm' (test box)"]));
    let full = startup_message("vm", &sample(None), &args, true, true);
    assert_eq!(full[0], "Starting configuration 'vm'");
    assert_eq!(full[1], "  QEMU: qemu-system-x86_64");
    assert_eq!(full[2], "  Args: [\"-m\", \"1G\"]");
    assert_eq!(full[3], "  Mode: DEBUG");
    assert_eq!(full.len(), 7);
}

#[test]
fn rename_to_free_name_needs_no_prompt() {
    assert!(!needs_confirmation(true, false, false));
    assert_eq!(rename_decision(true, false, false, false), Ok(RenameDecision::Proceed));
}

#[test]
fn rename_onto_existing_name_declined_is_cancelled() {
    assert!(needs_confirmation(true, true, false));
    assert_eq!(rename_decision(true, true, false, false), Ok(RenameDecision::Cancelled));
    assert_eq!(rename_decision(true, true, false, true), Ok(RenameDecision::Proceed));
    assert!(!needs_confirmation(true, true, true));
    assert_eq!(rename_decision(true, true, true, false), Ok(RenameDecision::Proceed));
}

#[test]
fn rename_of_missing_name_fails() {
    assert!(!needs_confirmation(false, true, false));
    assert_eq!(rename_decision(false, true, false, true), Err(VexError::NotFound));
}

fn written(actions: &[StoreAction]) -> (String, QemuConfig) {
    match &actions[0] {
        StoreAction::Write { name, config } => (name.clone(), config.clone()),
        other => panic!("expected a write first, got {:?}", other),
    }
}

#[test]
fn rename_writes_new_before_deleting_old() {
    let actions = rename_actions("a".to_string(), "b".to_string(), sample(Some("old")), None);
    assert_eq!(actions.len(), 2);
    let (name, config) = written(&actions);
    assert_eq!(name, "b");
    assert_eq!(config.desc, Some("old".to_string()));
    assert_eq!(config.args, strings(&["-m", "1G", "-hda", "${DISK}"]));
    assert!(matches!(&actions[1], StoreAction::Delete { name } if name == "a"));
}

#[test]
fn rename_overlays_description() {
    let actions = rename_actions("a".to_string(), "b".to_string(), sample(Some("old")), Some("new".to_string()));
    assert_eq!(written(&actions).1.desc, Some("new".to_string()));
    let actions = rename_actions("a".to_string(), "b".to_string(), sample(None), None);
    assert_eq!(written(&actions).1.desc, None);
    let actions = rename_actions("a".to_string(), "b".to_string(), sample(None), Some(String::new()));
    assert_eq!(written(&actions).1.desc, Some(String::new()));
}

#[test]
fn listing_skips_malformed_entries() {
    let entries = vec![
        ("good.json".to_string(), Some(sample(None))),
        ("bad.json".to_string(), None),
    ];
    let listed = select_configs(&entries);
    assert_eq!(listed.len(), 1);
    assert_eq!(listed[0].0, "good");
    assert_eq!(listed[0].1.qemu_bin, "qemu-system-x86_64");
}

#[test]
fn listing_ignores_other_files_and_keeps_order() {
    let entries = vec![
        ("b.json".to_string(), Some(sample(Some("b")))),
        ("notes.txt".to_string(), Some(sample(None))),
        ("a.json".to_string(), Some(sample(Some("a")))),
    ];
    let listed = select_configs(&entries);
    let names: Vec<&str> = listed.iter().map(|(n, _)| n.as_str()).collect();
    assert_eq!(names, vec!["b", "a"]);
    assert!(select_configs(&Vec::new()).is_empty());
}

#[test]
fn load_and_existence_errors() {
    assert!(matches!(load_result(false, Some(sample(None))), Err(VexError::NotFound)));
    assert!(matches!(load_result(true, None), Err(VexError::SerializationError)));
    assert_eq!(load_result(true, Some(sample(None))).unwrap().qemu_version, Some("8.2.0".to_string()));
    assert_eq!(require_existing(false), Err(VexError::NotFound));
    assert_eq!(require_existing(true), Ok(()));
}

#[test]
fn record_copies_and_binary_check() {
    let c = sample(Some("d"));
    let d = c.duplicate();
    assert_eq!(d.qemu_bin, c.qemu_bin);
    assert_eq!(d.args, c.args);
    assert_eq!(d.desc, c.desc);
    assert_eq!(d.qemu_version, c.qemu_version);
    assert!(c.has_binary());
    assert!(!QemuConfig::new(String::new(), Vec::new(), None, None).has_binary());
}

#[test]
fn decimal_and_joining() {
    assert_eq!(decimal(0), "0");
    assert_eq!(decimal(7), "7");
    assert_eq!(decimal(10), "10");
    assert_eq!(decimal(1234), "1234");
    assert_eq!(decimal(usize::MAX), usize::MAX.to_string());
    assert_eq!(join_with_spaces(&strings(&["-m", "1G", "-S"])), "-m 1G -S");
    assert_eq!(join_with_spaces(&Vec::new()), "");
    assert_eq!(rule_line(3), "===");
    assert_eq!(rule_line(60).len(), 60);
}

#[test]
fn print_shows_numbered_arguments() {
    let lines = detail_lines("vm", &sample(Some("box")));
    assert_eq!(lines[0], "Configuration: vm");
    assert_eq!(lines[1], "=".repeat(60));
    assert_eq!(lines[3], "Description:");
    assert_eq!(lines[4], "  box");
    assert_eq!(lines[7], "  qemu-system-x86_64");
    assert_eq!(lines[9], "Startup Arguments:");
    assert_eq!(lines[10], "  [0] -m");
    assert_eq!(lines[13], "  [3] ${DISK}");
    assert_eq!(lines[16], "  qemu-system-x86_64 -m 1G -hda ${DISK}");
    assert_eq!(lines.last().unwrap(), "Configuration File:");
    let bare = detail_lines("x", &QemuConfig::new("q".to_string(), Vec::new(), None, None));
    assert_eq!(bare[3], "QEMU Binary:");
    assert_eq!(bare[7], "  (no arguments)");
    assert_eq!(bare[10], "  q ");
}

#[test]
fn list_shows_each_configuration() {
    assert_eq!(listing_lines(&Vec::new()), strings(&["No configurations found."]));
    let items = vec![("a".to_string(), sample(None)), ("b".to_string(), sample(Some("second")))];
    let lines = listing_lines(&items);
    assert_eq!(lines.len(), 9);
    assert_eq!(lines[0], "Saved configurations:");
    assert_eq!(lines[1], "  a - (no description)");
    assert_eq!(lines[2], "    QEMU: qemu-system-x86_64");
    assert_eq!(lines[3], "    Args: [\"-m\", \"1G\", \"-hda\", \"${DISK}\"]");
    assert_eq!(lines[5], "  b - second");
}
