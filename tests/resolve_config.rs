use dprint_plugin_rustfmt::options::{GlobalOptions, NewLineKind, NewlineStyle, newline_style_of, parse_newline_kind};
use dprint_plugin_rustfmt::resolve::{Diagnostic, ResolveResult, Setting, engine_key, resolve_config, resolve_entry};

fn entries(pairs: &[(&str, &str)]) -> Vec<(String, String)> {
    pairs.iter().map(|(k, v)| (k.to_string(), v.to_string())).collect()
}

fn field_of(s: &Setting) -> String {
    match s {
        Setting::Edition2018 => "edition".to_string(),
        Setting::MaxWidth(_) => "max_width".to_string(),
        Setting::HardTabs(_) => "hard_tabs".to_string(),
        Setting::TabSpaces(_) => "tab_spaces".to_string(),
        Setting::Newline(_) => "newline_style".to_string(),
        Setting::Raw { key, .. } => key.clone(),
        Setting::EmitStdout => "emit_mode".to_string(),
    }
}

fn last_for(r: &ResolveResult, field: &str) -> Option<Setting> {
    r.config.settings.iter().rev().find(|s| field_of(s) == field).cloned()
}

#[test]
fn override_line_width_beats_global() {
    let mut g = GlobalOptions::empty();
    g.line_width = Some(80);
    let r = resolve_config(entries(&[("lineWidth", "100")]), vec![true], &g);
    assert_eq!(
        last_for(&r, "max_width"),
        Some(Setting::Raw { key: "max_width".to_string(), value: "100".to_string() })
    );
    assert!(r.diagnostics.is_empty());
}

#[test]
fn newline_kind_override_beats_global() {
    let mut g = GlobalOptions::empty();
    g.new_line_kind = Some(NewLineKind::LineFeed);
    let r = resolve_config(entries(&[("newLineKind", "crlf")]), vec![true], &g);
    assert_eq!(last_for(&r, "newline_style"), Some(Setting::Newline(NewlineStyle::Windows)));
    assert!(r.diagnostics.is_empty());
}

#[test]
fn bogus_newline_kind_keeps_global_and_is_reported() {
    let mut g = GlobalOptions::empty();
    g.new_line_kind = Some(NewLineKind::LineFeed);
    let r = resolve_config(entries(&[("newLineKind", "bogus")]), vec![false], &g);
    assert_eq!(last_for(&r, "newline_style"), Some(Setting::Newline(NewlineStyle::Unix)));
    assert_eq!(r.diagnostics.len(), 1);
    assert_eq!(r.diagnostics[0].property_name, "newLineKind");
    assert!(r.diagnostics[0].message.contains("bogus"));
    assert_eq!(r.diagnostics[0].message, "Invalid newline kind: bogus");
}

#[test]
fn bogus_newline_kind_without_global_leaves_default() {
    let r = resolve_config(entries(&[("newLineKind", "bogus")]), vec![true], &GlobalOptions::empty());
    assert_eq!(last_for(&r, "newline_style"), None);
    assert_eq!(r.diagnostics.len(), 1);
}

#[test]
fn unknown_key_is_reported_and_not_applied() {
    let r = resolve_config(entries(&[("notARealKey", "x")]), vec![false], &GlobalOptions::empty());
    assert_eq!(
        r.diagnostics,
        vec![Diagnostic {
            property_name: "notARealKey".to_string(),
            message: "Invalid key or value in configuration. Key: notARealKey, Value: x".to_string(),
        }]
    );
    assert_eq!(r.config.settings, vec![Setting::Edition2018, Setting::EmitStdout]);
}

#[test]
fn rejected_alias_names_both_keys() {
    let r = resolve_config(entries(&[("useTabs", "notABoolean")]), vec![false], &GlobalOptions::empty());
    assert_eq!(r.diagnostics.len(), 1);
    assert_eq!(r.diagnostics[0].property_name, "useTabs");
    assert!(r.diagnostics[0].message.contains("hard_tabs"));
    assert_eq!(
        r.diagnostics[0].message,
        "Invalid key or value in configuration. Key: hard_tabs, Value: notABoolean"
    );
}

#[test]
fn empty_inputs_give_fixed_settings_only() {
    let r = resolve_config(Vec::new(), Vec::new(), &GlobalOptions::empty());
    assert!(r.diagnostics.is_empty());
    assert_eq!(r.config.settings, vec![Setting::Edition2018, Setting::EmitStdout]);
    assert!(r.config.overrides.is_empty());
}

#[test]
fn resolving_twice_gives_the_same() {
    let g = GlobalOptions { line_width: Some(90), use_tabs: Some(true), indent_width: Some(2), new_line_kind: None };
    let o = entries(&[("indentWidth", "4"), ("newLineKind", "nope"), ("wrap_comments", "maybe")]);
    let a = resolve_config(o.clone(), vec![true, false, false], &g);
    let b = resolve_config(o, vec![true, false, false], &g);
    assert_eq!(a.config.settings, b.config.settings);
    assert_eq!(a.diagnostics, b.diagnostics);
    assert_eq!(a.config.overrides, b.config.overrides);
}

#[test]
fn global_options_in_order() {
    let g = GlobalOptions {
        line_width: Some(120),
        use_tabs: Some(false),
        indent_width: Some(3),
        new_line_kind: Some(NewLineKind::System),
    };
    let r = resolve_config(entries(&[("max_width", "40")]), vec![true], &g);
    assert_eq!(
        r.config.settings,
        vec![
            Setting::Edition2018,
            Setting::MaxWidth(120),
            Setting::HardTabs(false),
            Setting::TabSpaces(3),
            Setting::Newline(NewlineStyle::Native),
            Setting::Raw { key: "max_width".to_string(), value: "40".to_string() },
            Setting::EmitStdout,
        ]
    );
}

#[test]
fn emit_mode_is_forced_last() {
    let r = resolve_config(entries(&[("emit_mode", "Files")]), vec![true], &GlobalOptions::empty());
    assert_eq!(last_for(&r, "emit_mode"), Some(Setting::EmitStdout));
    assert_eq!(r.config.settings.last(), Some(&Setting::EmitStdout));
}

#[test]
fn aliases_translate() {
    assert_eq!(engine_key(&"lineWidth".to_string()), "max_width");
    assert_eq!(engine_key(&"useTabs".to_string()), "hard_tabs");
    assert_eq!(engine_key(&"indentWidth".to_string()), "tab_spaces");
    assert_eq!(engine_key(&"newLineKind".to_string()), "newLineKind");
    assert_eq!(engine_key(&"reorder_imports".to_string()), "reorder_imports");
}

#[test]
fn newline_values_and_kinds() {
    assert_eq!(parse_newline_kind(&"auto".to_string()), Some(NewlineStyle::Auto));
    assert_eq!(parse_newline_kind(&"lf".to_string()), Some(NewlineStyle::Unix));
    assert_eq!(parse_newline_kind(&"crlf".to_string()), Some(NewlineStyle::Windows));
    assert_eq!(parse_newline_kind(&"system".to_string()), Some(NewlineStyle::Native));
    assert_eq!(parse_newline_kind(&"CRLF".to_string()), None);
    assert_eq!(newline_style_of(NewLineKind::Auto), NewlineStyle::Auto);
    assert_eq!(newline_style_of(NewLineKind::LineFeed), NewlineStyle::Unix);
    assert_eq!(newline_style_of(NewLineKind::CarriageReturnLineFeed), NewlineStyle::Windows);
    assert_eq!(newline_style_of(NewLineKind::System), NewlineStyle::Native);
}

#[test]
fn newline_kind_entry_skips_engine_verdict() {
    let (s, d) = resolve_entry(&"newLineKind".to_string(), &"lf".to_string(), false);
    assert_eq!(s, Some(Setting::Newline(NewlineStyle::Unix)));
    assert_eq!(d, None);
    let (s, d) = resolve_entry(&"lineWidth".to_string(), &"80".to_string(), true);
    assert_eq!(s, Some(Setting::Raw { key: "max_width".to_string(), value: "80".to_string() }));
    assert_eq!(d, None);
}
