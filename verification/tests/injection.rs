use leto::injection::client_mods::{ClientMod, ClientMods};
use leto::injection::inject::{
    assemble_injection, plan_injection, source_of, wrap_css, Injectable, Source, CSS_WRAP_CLOSE,
    CSS_WRAP_OPEN,
};
use leto::injection::scripts::{
    get_post_inject_script, get_pre_inject_script, SCRIPT_NAME_POST, SCRIPT_NAME_PRE,
};
use leto::injection::shared::{
    load_error, script_location, BuildLayout, InjectionError, LoadFailure, ScriptBase,
};

fn load_failed(message: &str) -> InjectionError {
    InjectionError::ScriptLoadError(message.to_string())
}

fn message_of(error: &InjectionError) -> String {
    match error {
        InjectionError::ScriptLoadError(m) => format!("load:{}", m),
        InjectionError::ScriptEvalError(m) => format!("eval:{}", m),
        InjectionError::ScriptInjectionError(m) => format!("inject:{}", m),
        InjectionError::UrlParseError(m) => format!("url:{}", m),
        InjectionError::IoError(m) => format!("io:{}", m),
    }
}

#[test]
fn wrap_css_exact_text() {
    let expected = "\n    (function() {\n        let style = document.createElement('style');\n        style.type = 'text/css';\n        style.innerHTML = `body { color: red; }`;\n        document.head.appendChild(style);\n    })();\n    ";
    assert_eq!(wrap_css("body { color: red; }"), expected);
    assert_eq!(
        wrap_css("x"),
        format!("{}x{}", CSS_WRAP_OPEN, CSS_WRAP_CLOSE)
    );
}

#[test]
fn wrap_css_of_empty_styles() {
    assert_eq!(wrap_css(""), format!("{}{}", CSS_WRAP_OPEN, CSS_WRAP_CLOSE));
}

#[test]
fn injectable_getters() {
    let with_styles = Injectable::new("main.js".to_string(), Some("theme.css".to_string()));
    assert_eq!(with_styles.get_script(), "main.js");
    assert_eq!(with_styles.get_styles(), "theme.css");
    let without = Injectable::new("https://example.com/a.js".to_string(), None);
    assert_eq!(without.get_script(), "https://example.com/a.js");
    assert_eq!(without.get_styles(), "");
}

#[test]
fn client_mods_keep_order_in_injectables() {
    let mut mods = ClientMods::new();
    assert!(mods.mods.is_empty());
    mods.add_mod(ClientMod { script: "one.js".to_string(), styles: None });
    mods.add_mod(ClientMod {
        script: "https://raw.githubusercontent.com/uwu/shelter-builds/main/shelter.js".to_string(),
        styles: Some("two.css".to_string()),
    });
    mods.add_mod(ClientMod { script: "three.js".to_string(), styles: Some(String::new()) });
    assert_eq!(mods.mods.len(), 3);
    let injectables = mods.into_injectables();
    assert_eq!(injectables.len(), 3);
    assert_eq!(injectables[0].get_script(), "one.js");
    assert_eq!(injectables[0].get_styles(), "");
    assert_eq!(
        injectables[1].get_script(),
        "https://raw.githubusercontent.com/uwu/shelter-builds/main/shelter.js"
    );
    assert_eq!(injectables[1].get_styles(), "two.css");
    assert_eq!(injectables[2].get_script(), "three.js");
    assert_eq!(injectables[2].get_styles(), "");
}

#[test]
fn no_mods_no_injectables() {
    assert!(ClientMods::new().into_injectables().is_empty());
}

#[test]
fn source_by_http_prefix() {
    assert_eq!(source_of("https://example.com/mod.js"), Source::Url);
    assert_eq!(source_of("http://localhost/mod.js"), Source::Url);
    assert_eq!(source_of("http"), Source::Url);
    assert_eq!(source_of("httpd.js"), Source::Url);
    assert_eq!(source_of("htt"), Source::File);
    assert_eq!(source_of("mod.js"), Source::File);
    assert_eq!(source_of("HTTP://x"), Source::File);
    assert_eq!(source_of(""), Source::File);
    assert_eq!(source_of(" http://x"), Source::File);
}

#[test]
fn plan_loads_script_and_present_styles() {
    let plan = plan_injection(&Injectable::new(
        "https://example.com/mod.js".to_string(),
        Some("mod.css".to_string()),
    ));
    assert_eq!(plan.script.source, Source::Url);
    assert_eq!(plan.script.location, "https://example.com/mod.js");
    let styles = plan.styles.expect("styles are loaded");
    assert_eq!(styles.source, Source::File);
    assert_eq!(styles.location, "mod.css");
}

#[test]
fn plan_skips_missing_or_empty_styles() {
    let none = plan_injection(&Injectable::new("mod.js".to_string(), None));
    assert_eq!(none.script.source, Source::File);
    assert_eq!(none.script.location, "mod.js");
    assert!(none.styles.is_none());
    let empty = plan_injection(&Injectable::new("mod.js".to_string(), Some(String::new())));
    assert!(empty.styles.is_none());
}

#[test]
fn assemble_without_styles() {
    let injected = assemble_injection(Ok("run();".to_string()), Ok(String::new())).unwrap();
    assert_eq!(injected, ";\nrun();");
}

#[test]
fn assemble_with_styles() {
    let injected = assemble_injection(Ok("run();".to_string()), Ok("a{}".to_string())).unwrap();
    assert_eq!(injected, format!("{};\nrun();", wrap_css("a{}")));
    assert!(injected.ends_with("run();"));
    assert!(injected[CSS_WRAP_OPEN.len()..].starts_with("a{}"));
}

#[test]
fn assemble_reports_script_failure_first() {
    let both = assemble_injection(Err(load_failed("script")), Err(load_failed("styles")));
    assert_eq!(message_of(&both.unwrap_err()), "load:script");
    let script_only = assemble_injection(Err(load_failed("script")), Ok("a{}".to_string()));
    assert_eq!(message_of(&script_only.unwrap_err()), "load:script");
    let styles_only = assemble_injection(
        Ok("run();".to_string()),
        Err(InjectionError::IoError("styles".to_string())),
    );
    assert_eq!(message_of(&styles_only.unwrap_err()), "io:styles");
}

#[test]
fn load_error_messages() {
    let cases = [
        (LoadFailure::UrlFetch, "Failed to fetch script from URL 'https://x/a.js': timed out"),
        (LoadFailure::UrlRead, "Failed to read script from URL 'https://x/a.js': timed out"),
        (LoadFailure::FileRead, "Failed to load script 'https://x/a.js': timed out"),
        (LoadFailure::NoScriptDir, "Failed to determine executable directory for 'https://x/a.js'"),
    ];
    for (failure, expected) in cases {
        let error = load_error(failure, "https://x/a.js", "timed out");
        assert_eq!(message_of(&error), format!("load:{}", expected));
    }
}

#[test]
fn script_locations_by_layout() {
    let debug = script_location(BuildLayout::Debug);
    assert_eq!(debug.base, ScriptBase::WorkingDir);
    assert_eq!(debug.dir, "scripts");
    let mac = script_location(BuildLayout::MacBundle);
    assert_eq!(mac.base, ScriptBase::ExecutableDir);
    assert_eq!(mac.dir, "../Resources/scripts");
    let release = script_location(BuildLayout::Release);
    assert_eq!(release.base, ScriptBase::ExecutableDir);
    assert_eq!(release.dir, "scripts");
}

#[test]
fn inject_scripts_fall_back_to_empty() {
    assert_eq!(SCRIPT_NAME_POST, "post.js");
    assert_eq!(SCRIPT_NAME_PRE, "pre.js");
    assert_eq!(get_post_inject_script(Ok("post();".to_string())), "post();");
    assert_eq!(get_pre_inject_script(Ok("pre();".to_string())), "pre();");
    assert_eq!(get_post_inject_script(Err(load_failed("missing"))), "");
    assert_eq!(get_pre_inject_script(Err(load_failed("missing"))), "");
}
