//! The files of a curated plugin marketplace, as tests lay them out on disk.

use vstd::prelude::*;
use vstd::string::*;
use crate::text::{owned, path_join, path_join_spec, join3};
use crate::marketplace::OPENAI_CURATED_MARKETPLACE_NAME;

verus! {

/// A file to write: its path and its contents.
pub struct FixtureFile {
    pub path: String,
    pub contents: String,
}

impl FixtureFile {
    pub open spec fn view_pair(&self) -> (Seq<char>, Seq<char>) {
        (self.path@, self.contents@)
    }
}

/// SHA that tests record for the curated plugins.
pub const TEST_CURATED_PLUGIN_SHA: &'static str = "0123456789abcdef0123456789abcdef01234567";
/// File name of the user configuration.
pub const CONFIG_TOML_FILE: &'static str = "config.toml";
/// Configuration that turns the plugins feature on.
pub const PLUGINS_FEATURE_CONFIG: &'static str = "[features]\nplugins = true\n";
/// Skill file of a curated plugin.
pub const SAMPLE_SKILL: &'static str = "---\nname: sample\ndescription: sample\n---\n";
/// MCP servers of a curated plugin.
pub const SAMPLE_MCP_JSON: &'static str = "{\n  \"mcpServers\": {\n    \"sample-docs\": {\n      \"type\": \"http\",\n      \"url\": \"https://sample.example/mcp\"\n    }\n  }\n}";
/// App connectors of a curated plugin.
pub const SAMPLE_APP_JSON: &'static str = "{\n  \"apps\": {\n    \"calendar\": {\n      \"id\": \"connector_calendar\"\n    }\n  }\n}";
/// Start of a plugin manifest, up to the name.
pub const MANIFEST_HEAD: &'static str = "{\n  \"name\": \"";
/// End of a plugin manifest, after the name.
pub const MANIFEST_TAIL: &'static str = "\",\n  \"description\": \"Plugin that includes skills, MCP servers, and app connectors\"\n}";
/// Start of a marketplace entry, up to the name.
pub const ENTRY_HEAD: &'static str = "{\n      \"name\": \"";
/// Middle of a marketplace entry, between the name and the path's name.
pub const ENTRY_MIDDLE: &'static str = "\",\n      \"source\": {\n        \"source\": \"local\",\n        \"path\": \"./plugins/";
/// End of a marketplace entry.
pub const ENTRY_TAIL: &'static str = "\"\n      }\n    }";
/// Separator between marketplace entries.
pub const ENTRY_SEPARATOR: &'static str = ",\n";
/// Start of a marketplace manifest, up to its name.
pub const MARKETPLACE_HEAD: &'static str = "{\n  \"name\": \"";
/// Middle of a marketplace manifest, between its name and its entries.
pub const MARKETPLACE_MIDDLE: &'static str = "\",\n  \"plugins\": [\n";
/// End of a marketplace manifest.
pub const MARKETPLACE_TAIL: &'static str = "\n  ]\n}";

/// The directory of plugin `name` under `root`.
pub open spec fn plugin_root(root: Seq<char>, name: Seq<char>) -> Seq<char> {
    path_join_spec(path_join_spec(root, "plugins"@), name)
}

/// The files of curated plugin `name` under `root`: its manifest, a skill,
/// its MCP servers and its app connectors.
pub open spec fn curated_plugin_spec(root: Seq<char>, name: Seq<char>) -> Seq<(Seq<char>, Seq<char>)> {
    let dir = plugin_root(root, name);
    seq![
        (path_join_spec(dir, ".deepseek-plugin/plugin.json"@), MANIFEST_HEAD@ + name + MANIFEST_TAIL@),
        (path_join_spec(dir, "skills/SKILL.md"@), SAMPLE_SKILL@),
        (path_join_spec(dir, ".mcp.json"@), SAMPLE_MCP_JSON@),
        (path_join_spec(dir, ".app.json"@), SAMPLE_APP_JSON@),
    ]
}

/// The files, by their characters.
pub open spec fn files_view(files: Seq<FixtureFile>) -> Seq<(Seq<char>, Seq<char>)> {
    files.map_values(|f: FixtureFile| f.view_pair())
}

fn file(path: String, contents: String) -> (f: FixtureFile)
    ensures
        f.path == path,
        f.contents == contents,
{
    FixtureFile { path, contents }
}

/// Appends the files of curated plugin `plugin_name` under `root`.
pub fn push_curated_plugin(files: &mut Vec<FixtureFile>, root: &str, plugin_name: &str)
    ensures
        files_view(final(files)@) == files_view(old(files)@) + curated_plugin_spec(root@, plugin_name@),
{
    let plugins_dir = path_join(root, "plugins");
    let dir = path_join(plugins_dir.as_str(), plugin_name);
    let ghost before = files@;
    files.push(file(
        path_join(dir.as_str(), ".deepseek-plugin/plugin.json"),
        join3(MANIFEST_HEAD, plugin_name, MANIFEST_TAIL),
    ));
    files.push(file(path_join(dir.as_str(), "skills/SKILL.md"), owned(SAMPLE_SKILL)));
    files.push(file(path_join(dir.as_str(), ".mcp.json"), owned(SAMPLE_MCP_JSON)));
    files.push(file(path_join(dir.as_str(), ".app.json"), owned(SAMPLE_APP_JSON)));
    assert(files_view(files@) =~= files_view(before) + curated_plugin_spec(root@, plugin_name@));
}

/// The files of curated plugin `plugin_name` under `root`.
pub fn write_curated_plugin(root: &str, plugin_name: &str) -> (files: Vec<FixtureFile>)
    ensures
        files_view(files@) == curated_plugin_spec(root@, plugin_name@),
{
    let mut files = Vec::new();
    push_curated_plugin(&mut files, root, plugin_name);
    assert(files_view(Seq::<FixtureFile>::empty()) =~= Seq::<(Seq<char>, Seq<char>)>::empty());
    files
}

/// The marketplace entry of plugin `name`.
pub open spec fn entry_spec(name: Seq<char>) -> Seq<char> {
    ENTRY_HEAD@ + name + ENTRY_MIDDLE@ + name + ENTRY_TAIL@
}

/// The entries of the given plugins, separated by `,` and a newline.
pub open spec fn entries_spec(names: Seq<Seq<char>>) -> Seq<char>
    decreases names.len(),
{
    if names.len() == 0 {
        Seq::empty()
    } else if names.len() == 1 {
        entry_spec(names[0])
    } else {
        entries_spec(names.drop_last()) + ENTRY_SEPARATOR@ + entry_spec(names.last())
    }
}

/// The files of every plugin, one plugin after another.
pub open spec fn plugins_files_spec(root: Seq<char>, names: Seq<Seq<char>>) -> Seq<(Seq<char>, Seq<char>)>
    decreases names.len(),
{
    if names.len() == 0 {
        Seq::empty()
    } else {
        plugins_files_spec(root, names.drop_last()) + curated_plugin_spec(root, names.last())
    }
}

/// The names, by their characters.
pub open spec fn names_view(names: Seq<&str>) -> Seq<Seq<char>> {
    names.map_values(|n: &str| n@)
}

/// The curated marketplace manifest listing the given plugins.
pub open spec fn marketplace_manifest_spec(names: Seq<Seq<char>>) -> Seq<char> {
    MARKETPLACE_HEAD@ + OPENAI_CURATED_MARKETPLACE_NAME@ + MARKETPLACE_MIDDLE@ + entries_spec(names)
        + MARKETPLACE_TAIL@
}

/// The files of a curated marketplace under `root`: its manifest, then the
/// files of each listed plugin.
pub fn write_deepseek_curated_marketplace(root: &str, plugin_names: &[&str]) -> (files: Vec<FixtureFile>)
    ensures
        files_view(files@) == seq![
            (
                path_join_spec(root@, ".agents/plugins/marketplace.json"@),
                marketplace_manifest_spec(names_view(plugin_names@)),
            ),
        ] + plugins_files_spec(root@, names_view(plugin_names@)),
{
    let ghost names = names_view(plugin_names@);
    let mut entries = String::new();
    let mut i: usize = 0;
    while i < plugin_names.len()
        invariant
            names == names_view(plugin_names@),
            i <= plugin_names@.len(),
            entries@ == entries_spec(names.take(i as int)),
        decreases plugin_names@.len() - i,
    {
        let name = plugin_names[i];
        proof {
            assert(names.take(i + 1).drop_last() =~= names.take(i as int));
            assert(names.take(i + 1).last() == name@);
        }
        if i > 0 {
            entries.append(ENTRY_SEPARATOR);
        } else {
            assert(entries@ =~= Seq::<char>::empty());
        }
        entries.append(ENTRY_HEAD);
        entries.append(name);
        entries.append(ENTRY_MIDDLE);
        entries.append(name);
        entries.append(ENTRY_TAIL);
        assert(entries@ =~= entries_spec(names.take(i + 1)));
        i = i + 1;
    }
    assert(names.take(names.len() as int) =~= names);
    let mut manifest = owned(MARKETPLACE_HEAD);
    manifest.append(OPENAI_CURATED_MARKETPLACE_NAME);
    manifest.append(MARKETPLACE_MIDDLE);
    manifest.append(entries.as_str());
    manifest.append(MARKETPLACE_TAIL);
    let mut files = Vec::new();
    files.push(file(path_join(root, ".agents/plugins/marketplace.json"), manifest));
    let mut j: usize = 0;
    while j < plugin_names.len()
        invariant
            names == names_view(plugin_names@),
            j <= plugin_names@.len(),
            files_view(files@) == seq![
                (
                    path_join_spec(root@, ".agents/plugins/marketplace.json"@),
                    marketplace_manifest_spec(names),
                ),
            ] + plugins_files_spec(root@, names.take(j as int)),
        decreases plugin_names@.len() - j,
    {
        proof {
            assert(names.take(j + 1).drop_last() =~= names.take(j as int));
            assert(names.take(j + 1).last() == plugin_names@[j as int]@);
        }
        push_curated_plugin(&mut files, root, plugin_names[j]);
        j = j + 1;
    }
    files
}

/// The recorded SHA of the curated plugins, `sha` and a newline, in
/// `{home}/.tmp/plugins.sha`.
pub fn write_curated_plugin_sha_with(deepseek_home: &str, sha: &str) -> (f: FixtureFile)
    ensures
        f.path@ == path_join_spec(deepseek_home@, ".tmp/plugins.sha"@),
        f.contents@ == sha@ + "\n"@,
{
    let mut contents = owned(sha);
    contents.append("\n");
    file(path_join(deepseek_home, ".tmp/plugins.sha"), contents)
}

/// The recorded SHA file with the test SHA.
pub fn write_curated_plugin_sha(deepseek_home: &str) -> (f: FixtureFile)
    ensures
        f.path@ == path_join_spec(deepseek_home@, ".tmp/plugins.sha"@),
        f.contents@ == TEST_CURATED_PLUGIN_SHA@ + "\n"@,
{
    write_curated_plugin_sha_with(deepseek_home, TEST_CURATED_PLUGIN_SHA)
}

/// The configuration that turns the plugins feature on.
pub fn write_plugins_feature_config(deepseek_home: &str) -> (f: FixtureFile)
    ensures
        f.path@ == path_join_spec(deepseek_home@, CONFIG_TOML_FILE@),
        f.contents@ == PLUGINS_FEATURE_CONFIG@,
{
    file(path_join(deepseek_home, CONFIG_TOML_FILE), owned(PLUGINS_FEATURE_CONFIG))
}

} // verus!
