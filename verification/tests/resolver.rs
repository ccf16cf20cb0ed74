use lang_server_dispatch::dispatch::resolve_command;
use lang_server_dispatch::dispatch::resolve_initialization_options;
use lang_server_dispatch::json::JsonValue;

#[test]
fn command_python() {
    let cmd = resolve_command("python").unwrap();
    assert_eq!(cmd.executable, "pyright-langserver");
    assert_eq!(cmd.args, vec!["--stdio".to_owned()]);
}

#[test]
fn command_typescript() {
    let cmd = resolve_command("typescript").unwrap();
    assert_eq!(cmd.executable, "typescript-language-server");
    assert_eq!(cmd.args, vec!["--stdio".to_owned()]);
}

#[test]
fn command_javascript() {
    let cmd = resolve_command("javascript").unwrap();
    assert_eq!(cmd.executable, "typescript-language-server");
    assert_eq!(cmd.args, vec!["--stdio".to_owned()]);
}

#[test]
fn command_cpp() {
    let cmd = resolve_command("cpp").unwrap();
    assert_eq!(cmd.executable, "clangd");
    assert_eq!(cmd.args, vec!["--background-index".to_owned()]);
}

#[test]
fn command_rust() {
    let cmd = resolve_command("rust").unwrap();
    assert_eq!(cmd.executable, "rust-analyzer");
    assert_eq!(cmd.args, Vec::<String>::new());
}

#[test]
fn command_unknown_ruby() {
    let err = resolve_command("ruby").unwrap_err();
    assert_eq!(err, "No language server specified for ruby");
}

#[test]
fn command_unknown_empty() {
    let err = resolve_command("").unwrap_err();
    assert_eq!(err, "No language server specified for ");
}

#[test]
fn command_unknown_casing() {
    let err = resolve_command("PYTHON").unwrap_err();
    assert_eq!(err, "No language server specified for PYTHON");
}

#[test]
fn options_python() {
    let doc = resolve_initialization_options("python").unwrap();
    let expected = JsonValue::Object(vec![(
        "python".to_owned(),
        JsonValue::Object(vec![(
            "analysis".to_owned(),
            JsonValue::Object(vec![
                ("autoSearchPaths".to_owned(), JsonValue::Bool(true)),
                ("useLibraryCodeForTypes".to_owned(), JsonValue::Bool(true)),
                (
                    "diagnosticMode".to_owned(),
                    JsonValue::Text("workspace".to_owned()),
                ),
            ]),
        )]),
    )]);
    assert_eq!(doc, expected);
}

#[test]
fn options_typescript() {
    let doc = resolve_initialization_options("typescript").unwrap();
    let expected = JsonValue::Object(vec![(
        "typescript".to_owned(),
        JsonValue::Object(vec![(
            "suggest".to_owned(),
            JsonValue::Object(vec![(
                "completeFunctionCalls".to_owned(),
                JsonValue::Bool(true),
            )]),
        )]),
    )]);
    assert_eq!(doc, expected);
}

#[test]
fn options_javascript() {
    let doc = resolve_initialization_options("javascript").unwrap();
    let expected = JsonValue::Object(vec![(
        "typescript".to_owned(),
        JsonValue::Object(vec![(
            "suggest".to_owned(),
            JsonValue::Object(vec![(
                "completeFunctionCalls".to_owned(),
                JsonValue::Bool(true),
            )]),
        )]),
    )]);
    assert_eq!(doc, expected);
}

#[test]
fn options_cpp_absent() {
    assert_eq!(resolve_initialization_options("cpp"), None);
}

#[test]
fn options_rust_absent() {
    assert_eq!(resolve_initialization_options("rust"), None);
}

#[test]
fn options_unknown_absent() {
    assert_eq!(resolve_initialization_options("ruby"), None);
    assert_eq!(resolve_initialization_options(""), None);
}

#[test]
fn repeated_calls_identical() {
    let first = resolve_command("python");
    let other = resolve_command("rust");
    let second = resolve_command("python");
    assert_eq!(first, second);
    assert_eq!(other, resolve_command("rust"));

    let opts_first = resolve_initialization_options("typescript");
    let unrelated = resolve_initialization_options("cpp");
    let opts_second = resolve_initialization_options("typescript");
    assert_eq!(opts_first, opts_second);
    assert_eq!(unrelated, resolve_initialization_options("cpp"));

    let err_first = resolve_command("ruby");
    let err_second = resolve_command("ruby");
    assert_eq!(err_first, err_second);
}
