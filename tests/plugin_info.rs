use dprint_plugin_rustfmt::plugin_info::{
    get_plugin_config_key, get_plugin_config_schema_url, get_plugin_file_extensions,
    get_plugin_help_url, get_plugin_license_text,
};

#[test]
fn descriptor_values() {
    assert_eq!(get_plugin_config_key(), "rustfmt");
    assert_eq!(get_plugin_file_extensions(), vec!["rs".to_string()]);
    assert_eq!(get_plugin_help_url(), "https://dprint.dev/plugins/rustfmt");
    assert_eq!(get_plugin_config_schema_url(), "");
}

#[test]
fn license_is_mit() {
    let text = get_plugin_license_text();
    assert!(text.starts_with("The MIT License (MIT)"));
    assert!(text.contains("David Sherret"));
}
