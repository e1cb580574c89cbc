use deepseek_cli::plugin_fixtures::{
    write_curated_plugin, write_curated_plugin_sha, write_curated_plugin_sha_with,
    write_deepseek_curated_marketplace, write_plugins_feature_config,
};

#[test]
fn curated_plugin_files() {
    let files = write_curated_plugin("/root", "sample");
    let paths: Vec<&str> = files.iter().map(|f| f.path.as_str()).collect();
    assert_eq!(
        paths,
        vec![
            "/root/plugins/sample/.deepseek-plugin/plugin.json",
            "/root/plugins/sample/skills/SKILL.md",
            "/root/plugins/sample/.mcp.json",
            "/root/plugins/sample/.app.json",
        ]
    );
    assert_eq!(
        files[0].contents,
        "{\n  \"name\": \"sample\",\n  \"description\": \"Plugin that includes skills, MCP servers, and app connectors\"\n}"
    );
    assert_eq!(files[1].contents, "---\nname: sample\ndescription: sample\n---\n");
    let mcp: serde_json::Value = serde_json::from_str(&files[2].contents).unwrap();
    assert_eq!(mcp["mcpServers"]["sample-docs"]["url"], "https://sample.example/mcp");
    let app: serde_json::Value = serde_json::from_str(&files[3].contents).unwrap();
    assert_eq!(app["apps"]["calendar"]["id"], "connector_calendar");
}

#[test]
fn curated_marketplace_lists_its_plugins() {
    let files = write_deepseek_curated_marketplace("/root", &["one", "two"]);
    assert_eq!(files.len(), 1 + 2 * 4);
    assert_eq!(files[0].path, "/root/.agents/plugins/marketplace.json");
    let manifest: serde_json::Value = serde_json::from_str(&files[0].contents).unwrap();
    assert_eq!(manifest["name"], "deepseek-curated");
    assert_eq!(manifest["plugins"][0]["name"], "one");
    assert_eq!(manifest["plugins"][1]["source"]["path"], "./plugins/two");
    assert_eq!(manifest["plugins"][1]["source"]["source"], "local");
    assert_eq!(files[1].path, "/root/plugins/one/.deepseek-plugin/plugin.json");
    assert_eq!(files[5].path, "/root/plugins/two/.deepseek-plugin/plugin.json");
    let empty = write_deepseek_curated_marketplace("/r", &[]);
    assert_eq!(empty.len(), 1);
    assert_eq!(
        empty[0].contents,
        "{\n  \"name\": \"deepseek-curated\",\n  \"plugins\": [\n\n  ]\n}"
    );
}

#[test]
fn sha_and_feature_config_files() {
    let sha = write_curated_plugin_sha("/home");
    assert_eq!(sha.path, "/home/.tmp/plugins.sha");
    assert_eq!(sha.contents, "0123456789abcdef0123456789abcdef01234567\n");
    let other = write_curated_plugin_sha_with("/home", "abc");
    assert_eq!(other.contents, "abc\n");
    let config = write_plugins_feature_config("/home");
    assert_eq!(config.path, "/home/config.toml");
    assert_eq!(config.contents, "[features]\nplugins = true\n");
}
