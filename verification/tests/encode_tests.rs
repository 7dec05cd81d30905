use docker2fl::descriptor::{derive_descriptor, RuntimeDescriptor};
use docker2fl::encode::{descriptor_document, STARTUP_FILE_NAME};

fn strings(items: &[&str]) -> Vec<String> {
    items.iter().map(|s| String::from(*s)).collect()
}

fn pairs(items: &[(&str, &str)]) -> Vec<(String, String)> {
    items.iter().map(|(k, v)| (String::from(*k), String::from(*v))).collect()
}

#[test]
fn startup_file_name_is_fixed() {
    assert_eq!(STARTUP_FILE_NAME, ".startup.toml");
}

#[test]
fn document_bytes_exact() {
    let d = RuntimeDescriptor {
        command: String::from("/bin/entry"),
        args: strings(&["a", "b"]),
        env: pairs(&[("A", "1")]),
        working_dir: String::from("/"),
    };
    let doc = String::from_utf8(descriptor_document(&d)).unwrap();
    let expected = "[startup.entry]\nname = \"core.system\"\n\n[startup.entry.args]\nname = \"/bin/entry\"\nargs = [\"a\", \"b\"]\ndir = \"/\"\n\n[startup.entry.args.env]\n\"A\" = \"1\"\n";
    assert_eq!(doc, expected);
}

#[test]
fn document_with_empty_args_and_env() {
    let d = RuntimeDescriptor {
        command: String::from("/bin/sh"),
        args: Vec::new(),
        env: Vec::new(),
        working_dir: String::from("/"),
    };
    let doc = String::from_utf8(descriptor_document(&d)).unwrap();
    let expected = "[startup.entry]\nname = \"core.system\"\n\n[startup.entry.args]\nname = \"/bin/sh\"\nargs = []\ndir = \"/\"\n\n[startup.entry.args.env]\n";
    assert_eq!(doc, expected);
}

#[test]
fn document_escapes_special_characters() {
    let d = RuntimeDescriptor {
        command: String::from("say \"hi\""),
        args: strings(&["back\\slash", "line\nbreak", "tab\there"]),
        env: Vec::new(),
        working_dir: String::from("/"),
    };
    let doc = String::from_utf8(descriptor_document(&d)).unwrap();
    assert!(doc.contains("name = \"say \\\"hi\\\"\""));
    assert!(doc.contains("\"back\\\\slash\""));
    assert!(doc.contains("\"line\\nbreak\""));
    assert!(doc.contains("\"tab\\there\""));
}

#[test]
fn document_escapes_control_bytes_as_unicode() {
    let d = RuntimeDescriptor {
        command: String::from("bell\u{7}"),
        args: Vec::new(),
        env: Vec::new(),
        working_dir: String::from("del\u{7f}"),
    };
    let doc = String::from_utf8(descriptor_document(&d)).unwrap();
    assert!(doc.contains("\"bell\\u0007\""));
    assert!(doc.contains("\"del\\u007f\""));
}

#[test]
fn document_passes_multibyte_text_through() {
    let d = RuntimeDescriptor {
        command: String::from("caf\u{e9}"),
        args: Vec::new(),
        env: Vec::new(),
        working_dir: String::from("/"),
    };
    let doc = String::from_utf8(descriptor_document(&d)).unwrap();
    assert!(doc.contains("name = \"caf\u{e9}\""));
}

#[test]
fn document_parses_as_toml_with_fixed_schema() {
    let d = derive_descriptor(
        &Some(strings(&["/bin/entry"])),
        &Some(strings(&["a", "b"])),
        &Some(strings(&["A=1", "B=2=3", "ODD KEY=x y"])),
        &Some(String::from("/app")),
    )
    .unwrap();
    let doc = String::from_utf8(descriptor_document(&d)).unwrap();
    let value: toml::Value = toml::from_str(&doc).unwrap();
    let entry = &value["startup"]["entry"];
    assert_eq!(entry["name"].as_str().unwrap(), "core.system");
    let args = &entry["args"];
    assert_eq!(args["name"].as_str().unwrap(), "/bin/entry");
    let arg_list: Vec<&str> =
        args["args"].as_array().unwrap().iter().map(|v| v.as_str().unwrap()).collect();
    assert_eq!(arg_list, vec!["a", "b"]);
    assert_eq!(args["dir"].as_str().unwrap(), "/app");
    let env = args["env"].as_table().unwrap();
    assert_eq!(env["A"].as_str().unwrap(), "1");
    assert_eq!(env["B"].as_str().unwrap(), "2=3");
    assert_eq!(env["ODD KEY"].as_str().unwrap(), "x y");
}

#[test]
fn document_with_escapes_parses_back_to_original_strings() {
    let d = RuntimeDescriptor {
        command: String::from("c:\\windows\n\"quoted\""),
        args: strings(&["a\tb"]),
        env: pairs(&[("K\"ey", "v\\al")]),
        working_dir: String::from("/"),
    };
    let doc = String::from_utf8(descriptor_document(&d)).unwrap();
    let value: toml::Value = toml::from_str(&doc).unwrap();
    let args = &value["startup"]["entry"]["args"];
    assert_eq!(args["name"].as_str().unwrap(), "c:\\windows\n\"quoted\"");
    assert_eq!(args["args"].as_array().unwrap()[0].as_str().unwrap(), "a\tb");
    assert_eq!(args["env"]["K\"ey"].as_str().unwrap(), "v\\al");
}
