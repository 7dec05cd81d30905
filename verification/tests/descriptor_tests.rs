use docker2fl::descriptor::{derive_descriptor, split_env_entry};
use docker2fl::error::ConversionError;

fn strings(items: &[&str]) -> Vec<String> {
    items.iter().map(|s| String::from(*s)).collect()
}

#[test]
fn single_entrypoint_takes_cmd_as_args() {
    let d = derive_descriptor(
        &Some(strings(&["/bin/entry"])),
        &Some(strings(&["a", "b"])),
        &None,
        &None,
    )
    .unwrap();
    assert_eq!(d.command, "/bin/entry");
    assert_eq!(d.args, strings(&["a", "b"]));
}

#[test]
fn longer_entrypoint_keeps_own_args() {
    let d = derive_descriptor(
        &Some(strings(&["/bin/entry", "x"])),
        &Some(strings(&["a"])),
        &None,
        &None,
    )
    .unwrap();
    assert_eq!(d.command, "/bin/entry");
    assert_eq!(d.args, strings(&["x"]));
}

#[test]
fn absent_entrypoint_falls_back_to_cmd() {
    let d = derive_descriptor(&None, &Some(strings(&["run", "a"])), &None, &None).unwrap();
    assert_eq!(d.command, "run");
    assert_eq!(d.args, strings(&["a"]));
}

#[test]
fn empty_entrypoint_counts_as_absent() {
    let d = derive_descriptor(&Some(Vec::new()), &Some(strings(&["run", "a"])), &None, &None)
        .unwrap();
    assert_eq!(d.command, "run");
    assert_eq!(d.args, strings(&["a"]));
}

#[test]
fn env_splits_on_first_equals_only() {
    let d = derive_descriptor(
        &Some(strings(&["/bin/entry"])),
        &None,
        &Some(strings(&["A=1", "B=2=3"])),
        &None,
    )
    .unwrap();
    assert_eq!(
        d.env,
        vec![
            (String::from("A"), String::from("1")),
            (String::from("B"), String::from("2=3")),
        ]
    );
}

#[test]
fn env_colliding_keys_last_write_wins() {
    let d = derive_descriptor(
        &Some(strings(&["/bin/entry"])),
        &None,
        &Some(strings(&["A=1", "B=9", "A=2"])),
        &None,
    )
    .unwrap();
    assert_eq!(
        d.env,
        vec![
            (String::from("A"), String::from("2")),
            (String::from("B"), String::from("9")),
        ]
    );
}

#[test]
fn env_entry_without_equals_is_all_key() {
    let (k, v) = split_env_entry("TERM");
    assert_eq!(k, "TERM");
    assert_eq!(v, "");
}

#[test]
fn split_env_entry_empty_value() {
    let (k, v) = split_env_entry("EMPTY=");
    assert_eq!(k, "EMPTY");
    assert_eq!(v, "");
}

#[test]
fn working_dir_defaults_to_root() {
    let d = derive_descriptor(&Some(strings(&["/bin/entry"])), &None, &None, &None).unwrap();
    assert_eq!(d.working_dir, "/");
}

#[test]
fn working_dir_keeps_declared_value() {
    let d = derive_descriptor(
        &Some(strings(&["/bin/entry"])),
        &None,
        &None,
        &Some(String::from("/app")),
    )
    .unwrap();
    assert_eq!(d.working_dir, "/app");
}

#[test]
fn no_command_at_all_is_inspect_error() {
    let r = derive_descriptor(&None, &None, &None, &None);
    assert_eq!(r.unwrap_err(), ConversionError::InspectError);
    let r2 = derive_descriptor(&Some(Vec::new()), &Some(Vec::new()), &None, &None);
    assert_eq!(r2.unwrap_err(), ConversionError::InspectError);
}

#[test]
fn single_entrypoint_with_no_cmd_has_no_args() {
    let d = derive_descriptor(&Some(strings(&["/bin/entry"])), &None, &None, &None).unwrap();
    assert_eq!(d.command, "/bin/entry");
    assert!(d.args.is_empty());
}
