use plugin_repository::config::{
    AgentConfig, BuildConfig, Config, GitConfig, LlmAgentsConfig, LlmConfig, ProjectConfig,
    RepositoryConfig, YandexGptConfig,
};
use plugin_repository::deployer::{
    base_url, extract_meta, insert_snippet, make_snippet, merge_as_text, select_artifact,
    ArtifactFile, Deployer,
};
use plugin_repository::index::{merge_index, PluginMeta};
use plugin_repository::xml::{XmlElement, XmlNode};

fn config(url: &str, deploy_path: &str, xml_path: &str) -> Config {
    Config {
        project: ProjectConfig {
            name: "Example Plugin".to_string(),
            id: "org.example.plugin".to_string(),
            project_type: "intellij".to_string(),
        },
        build: BuildConfig {
            gradle_task: "buildPlugin".to_string(),
            output_dir: "build/distributions".to_string(),
            build_args: Vec::new(),
        },
        repository: RepositoryConfig {
            url: url.to_string(),
            ssh_host: "host".to_string(),
            ssh_user: "user".to_string(),
            ssh_private_key_path: None,
            deploy_path: deploy_path.to_string(),
            xml_path: xml_path.to_string(),
        },
        llm: LlmConfig { provider: "yandexgpt".to_string(), temperature: 300, max_tokens: 2000 },
        yandexgpt: YandexGptConfig {
            api_key: "k".to_string(),
            folder_id: "f".to_string(),
            model: "yandexgpt".to_string(),
        },
        openai: None,
        anthropic: None,
        llm_agents: LlmAgentsConfig {
            changelog_agent: AgentConfig { model: "m".to_string(), temperature: 300 },
            version_agent: AgentConfig { model: "m".to_string(), temperature: 300 },
            release_agent: AgentConfig { model: "m".to_string(), temperature: 300 },
        },
        git: GitConfig { main_branch: "main".to_string(), tag_prefix: "v".to_string() },
    }
}

fn deployer() -> Deployer {
    Deployer::new(config(
        "https://example.org/repo/updatePlugins.xml",
        "/var/www/repo/plugins",
        "/var/www/repo/updatePlugins.xml",
    ))
}

fn element<'a>(node: &'a XmlNode) -> &'a XmlElement {
    match node {
        XmlNode::Element(e) => e,
        _ => panic!("not an element"),
    }
}

fn attrs(e: &XmlElement) -> Vec<(String, String)> {
    e.attributes.clone()
}

fn pair(k: &str, v: &str) -> (String, String) {
    (k.to_string(), v.to_string())
}

fn no_meta() -> Option<&'static PluginMeta> {
    None
}

#[test]
fn first_release_makes_an_index_with_one_entry() {
    let d = deployer();
    let merged = d.build_merged_repository_xml(None, "plugin-1.2.0.zip", no_meta());
    let tree = merged.document.expect("merged as a document");
    assert_eq!(tree.name, "plugins");
    assert_eq!(tree.children.len(), 1);
    let entry = element(&tree.children[0]);
    assert_eq!(entry.name, "plugin");
    assert_eq!(
        attrs(entry),
        vec![
            pair("id", "org.example.plugin"),
            pair("url", "https://example.org/repo/plugins/plugin-1.2.0.zip"),
            pair("version", "1.2.0"),
        ]
    );
    assert_eq!(entry.children.len(), 1);
    let name = element(&entry.children[0]);
    assert_eq!(name.name, "name");
    assert_eq!(name.text(), Some("Example Plugin".to_string()));
    assert_eq!(
        merged.text,
        "<?xml version=\"1.0\" encoding=\"UTF-8\"?><plugins><plugin id=\"org.example.plugin\" url=\"https://example.org/repo/plugins/plugin-1.2.0.zip\" version=\"1.2.0\"><name>Example Plugin</name></plugin></plugins>"
    );
}

#[test]
fn empty_index_gets_its_first_entry() {
    let d = deployer();
    let merged =
        d.build_merged_repository_xml(Some("<plugins></plugins>"), "plugin-1.2.0.zip", no_meta());
    let tree = merged.document.expect("merged as a document");
    assert_eq!(tree.children.len(), 1);
    let entry = element(&tree.children[0]);
    assert_eq!(entry.attribute("id"), Some("org.example.plugin".to_string()));
    assert_eq!(entry.attribute("version"), Some("1.2.0".to_string()));
    assert!(entry.attribute("url").unwrap().ends_with("plugin-1.2.0.zip"));
}

#[test]
fn new_release_replaces_its_own_entry_only() {
    let existing = "<?xml version=\"1.0\" encoding=\"UTF-8\"?><plugins>\
<plugin id=\"org.example.plugin\" url=\"https://example.org/repo/plugins/plugin-1.0.0.zip\" version=\"1.0.0\"><name>Old Name</name><vendor>ACME</vendor><extra>dropped</extra></plugin>\
<plugin id=\"org.other\" url=\"https://example.org/o-3.zip\" version=\"3.0.0\"><name>Other</name><idea-version since-build=\"231\"/><description>About &amp; more</description></plugin>\
</plugins>";
    let d = deployer();
    let merged = d.build_merged_repository_xml(Some(existing), "plugin-1.1.0.zip", no_meta());
    let tree = merged.document.expect("merged as a document");
    assert_eq!(tree.children.len(), 2);

    let other = element(&tree.children[0]);
    assert_eq!(
        attrs(other),
        vec![
            pair("id", "org.other"),
            pair("url", "https://example.org/o-3.zip"),
            pair("version", "3.0.0")
        ]
    );
    assert_eq!(other.children.len(), 3);
    assert_eq!(element(&other.children[0]).text(), Some("Other".to_string()));
    assert_eq!(element(&other.children[1]).attribute("since-build"), Some("231".to_string()));
    assert_eq!(element(&other.children[2]).text(), Some("About & more".to_string()));

    let entry = element(&tree.children[1]);
    assert_eq!(
        attrs(entry),
        vec![
            pair("id", "org.example.plugin"),
            pair("url", "https://example.org/repo/plugins/plugin-1.1.0.zip"),
            pair("version", "1.1.0"),
        ]
    );
    assert_eq!(entry.children.len(), 2);
    assert_eq!(element(&entry.children[0]).name, "name");
    assert_eq!(element(&entry.children[0]).text(), Some("Old Name".to_string()));
    assert_eq!(element(&entry.children[1]).name, "vendor");
    assert_eq!(element(&entry.children[1]).text(), Some("ACME".to_string()));

    let other_text = "<plugin id=\"org.other\" url=\"https://example.org/o-3.zip\" version=\"3.0.0\"><name>Other</name><idea-version since-build=\"231\" /><description>About &amp; more</description></plugin>";
    assert!(merged.text.contains(other_text));
    assert_eq!(merged.text.matches("<plugin ").count(), 2);
    assert!(!merged.text.contains("1.0.0"));
}

#[test]
fn other_entries_come_out_as_they_went_in() {
    let d = deployer();
    let first = d.build_merged_repository_xml(None, "plugin-1.0.0.zip", no_meta());
    let other = Deployer::new({
        let mut c = config(
            "https://example.org/repo/updatePlugins.xml",
            "/var/www/repo/plugins",
            "/var/www/repo/updatePlugins.xml",
        );
        c.project.id = "org.other".to_string();
        c.project.name = "Other".to_string();
        c
    });
    let second = other.build_merged_repository_xml(Some(&first.text), "other-3.0.0.zip", no_meta());
    let third = d.build_merged_repository_xml(Some(&second.text), "plugin-1.1.0.zip", no_meta());
    let other_entry = "<plugin id=\"org.other\" url=\"https://example.org/repo/plugins/other-3.0.0.zip\" version=\"3.0.0\"><name>Other</name></plugin>";
    assert!(second.text.contains(other_entry));
    assert!(third.text.contains(other_entry));
    assert_eq!(
        third.text,
        format!(
            "<?xml version=\"1.0\" encoding=\"UTF-8\"?><plugins>{}<plugin id=\"org.example.plugin\" url=\"https://example.org/repo/plugins/plugin-1.1.0.zip\" version=\"1.1.0\"><name>Example Plugin</name></plugin></plugins>",
            other_entry
        )
    );
}

#[test]
fn merging_twice_leaves_one_entry() {
    let d = deployer();
    let first = d.build_merged_repository_xml(None, "plugin-1.0.0.zip", no_meta());
    let second = d.build_merged_repository_xml(Some(&first.text), "plugin-1.0.0.zip", no_meta());
    assert_eq!(first.text, second.text);
    let twice = "<plugins><plugin id=\"org.example.plugin\" version=\"1\"/><plugin id=\"org.example.plugin\" version=\"2\"/><plugin id=\"b\"/></plugins>";
    let merged = d.build_merged_repository_xml(Some(twice), "plugin-3.0.0.zip", no_meta());
    let tree = merged.document.unwrap();
    assert_eq!(tree.children.len(), 2);
    assert_eq!(element(&tree.children[0]).attribute("id"), Some("b".to_string()));
    assert_eq!(element(&tree.children[1]).attribute("version"), Some("3.0.0".to_string()));
}

#[test]
fn package_fills_what_the_old_entry_lacks() {
    let existing = "<plugins><plugin id=\"org.example.plugin\" url=\"u\" version=\"1.0.0\"><vendor>Kept Vendor</vendor></plugin></plugins>";
    let meta = PluginMeta {
        name: Some("Packaged Name".to_string()),
        vendor: Some("Packaged Vendor".to_string()),
        description: Some("Does <things>".to_string()),
        since_build: Some("231".to_string()),
        until_build: Some("241.*".to_string()),
    };
    let d = deployer();
    let merged = d.build_merged_repository_xml(Some(existing), "plugin-2.0.0.zip", Some(&meta));
    let tree = merged.document.unwrap();
    let entry = element(&tree.children[0]);
    let names: Vec<String> = entry.children.iter().map(|n| element(n).name.clone()).collect();
    assert_eq!(names, vec!["name", "vendor", "idea-version", "description"]);
    assert_eq!(element(&entry.children[0]).text(), Some("Packaged Name".to_string()));
    assert_eq!(element(&entry.children[1]).text(), Some("Kept Vendor".to_string()));
    assert_eq!(
        attrs(element(&entry.children[2])),
        vec![pair("since-build", "231"), pair("until-build", "241.*")]
    );
    assert!(matches!(&element(&entry.children[3]).children[0], XmlNode::CData(t) if t == "Does <things>"));
    assert!(merged.text.contains("<description><![CDATA[Does <things>]]></description>"));
    assert!(merged.text.contains("<idea-version since-build=\"231\" until-build=\"241.*\" />"));
}

#[test]
fn project_name_is_the_last_resort() {
    let meta = PluginMeta {
        name: None,
        vendor: None,
        description: None,
        since_build: None,
        until_build: Some("241".to_string()),
    };
    let root = XmlElement::new("plugins");
    let merged = merge_index(root, "id.x", "http://u/x.zip", "1.0.0", Some(&meta), "Project");
    let entry = element(&merged.children[0]);
    assert_eq!(entry.children.len(), 2);
    assert_eq!(element(&entry.children[0]).text(), Some("Project".to_string()));
    assert_eq!(attrs(element(&entry.children[1])), vec![pair("until-build", "241")]);
}

#[test]
fn nodes_that_are_no_entries_stay() {
    let existing = "<plugins><!-- note --><category name=\"x\"/><plugin url=\"no id\"/><plugin id=\"org.example.plugin\"/></plugins>";
    let d = deployer();
    let merged = d.build_merged_repository_xml(Some(existing), "plugin-1.0.0.zip", no_meta());
    let tree = merged.document.unwrap();
    assert_eq!(tree.children.len(), 4);
    assert!(matches!(&tree.children[0], XmlNode::Comment(c) if c == " note "));
    assert_eq!(element(&tree.children[1]).name, "category");
    assert_eq!(element(&tree.children[2]).attribute("url"), Some("no id".to_string()));
    assert_eq!(element(&tree.children[3]).attribute("version"), Some("1.0.0".to_string()));
}

#[test]
fn index_that_does_not_parse_is_merged_as_text() {
    let d = deployer();
    let broken = "<plugins><plugin id=\"org.other\" url=\"o\" version=\"1\"><name>O</name></plugin>";
    let merged = d.build_merged_repository_xml(Some(broken), "plugin-1.2.0.zip", no_meta());
    assert!(merged.document.is_none());
    let snippet = "<plugin id=\"org.example.plugin\" url=\"https://example.org/repo/plugins/plugin-1.2.0.zip\" version=\"1.2.0\"><name>Example Plugin</name></plugin>";
    assert_eq!(merged.text, format!("{}{}", broken, snippet));

    let with_entry = "<plugins><plugin id=\"org.example.plugin\" url=\"old\"\nversion=\"0.1\"><name>\nOld</name></plugin><plugin id=\"b\"></plugins>";
    let merged = d.build_merged_repository_xml(Some(with_entry), "plugin-1.2.0.zip", no_meta());
    assert!(merged.document.is_none());
    assert_eq!(merged.text, format!("<plugins>{}<plugin id=\"b\"></plugins>", snippet));

    let closed = "<plugins><b></plugins> <plugins></plugins> tail &";
    let merged = d.build_merged_repository_xml(Some(closed), "plugin-1.2.0.zip", no_meta());
    assert_eq!(merged.text, format!("<plugins><b></plugins> <plugins>{}</plugins> tail &", snippet));
}

#[test]
fn text_merge_handles_each_case() {
    assert_eq!(
        merge_as_text(None, "a", "<S/>"),
        "<?xml version=\"1.0\" encoding=\"UTF-8\"?><plugins><S/></plugins>"
    );
    assert_eq!(merge_as_text(Some("no tags"), "a", "<S/>"), "no tags<S/>");
    assert_eq!(merge_as_text(Some("x</plugins>y"), "a", "<S/>"), "x<S/></plugins>y");
    assert_eq!(
        merge_as_text(Some("<plugin id=\"a.b\">1</plugin><plugin id=\"aXb\">2</plugin>"), "a.b", "<S/>"),
        "<S/><plugin id=\"aXb\">2</plugin>"
    );
    assert_eq!(
        merge_as_text(Some("<plugin id=\"a\">1</plugin><plugin id=\"a\">2</plugin>"), "a", "<S/>"),
        "<S/><plugin id=\"a\">2</plugin>"
    );
    assert_eq!(
        merge_as_text(Some("<plugin id=\"aXb\">2</plugin><plugin id=\"a.b\">1</plugin>"), "a.b", "<S/>"),
        "<plugin id=\"aXb\">2</plugin><S/>"
    );
    assert_eq!(
        merge_as_text(Some("<plugin id=\"ab\">2</plugin><plugin id=\"a+b\">1</plugin>"), "a+b", "<S/>"),
        "<plugin id=\"ab\">2</plugin><S/>"
    );
    assert_eq!(insert_snippet("</plugins></plugins>", "|"), "</plugins>|</plugins>");
    assert_eq!(insert_snippet("", "|"), "|");
    assert_eq!(
        make_snippet("i", "u", "v", "n"),
        "<plugin id=\"i\" url=\"u\" version=\"v\"><name>n</name></plugin>"
    );
}

#[test]
fn artifact_address_follows_the_layout() {
    let d = deployer();
    assert_eq!(d.artifact_url("p-1.zip"), "https://example.org/repo/plugins/p-1.zip");
    let flat = Deployer::new(config(
        "https://example.org/repo/",
        "/var/www/repo",
        "/var/www/repo/updatePlugins.xml",
    ));
    assert_eq!(flat.artifact_url("p-1.zip"), "https://example.org/repo/p-1.zip");
    let elsewhere = Deployer::new(config(
        "https://example.org/repo///",
        "/srv/files",
        "/var/www/repo/updatePlugins.xml",
    ));
    assert_eq!(elsewhere.artifact_url("p-1.zip"), "https://example.org/repo/p-1.zip");
    let deep = Deployer::new(config(
        "https://example.org/index.xml",
        "/var/www/./repo//a/b/",
        "/var/www/repo/index.xml",
    ));
    assert_eq!(deep.artifact_url("p-1.zip"), "https://example.org/a/b/p-1.zip");
    assert_eq!(base_url("https://example.org/repo/updatePlugins.xml").iter().collect::<String>(),
        "https://example.org/repo");
    assert_eq!(base_url("plain.xml").iter().collect::<String>(), "plain.xml");
    assert_eq!(base_url("https://example.org/repo//").iter().collect::<String>(),
        "https://example.org/repo");
}

#[test]
fn version_is_read_from_the_file_name() {
    let d = deployer();
    assert_eq!(d.extract_version_from_filename("plugin-1.2.0.zip"), Some("1.2.0".to_string()));
    assert_eq!(
        d.extract_version_from_filename("my-plugin-10.20.30-beta.1.zip"),
        Some("10.20.30-beta.1".to_string())
    );
    assert_eq!(d.extract_version_from_filename("plugin.zip"), None);
    assert_eq!(d.extract_version_from_filename("plugin-1.2.zip"), None);
    assert_eq!(d.extract_version_from_filename("plugin-1.2.0.jar"), None);
    assert_eq!(d.announced_version("plugin.zip"), "0.0.0");
    assert_eq!(d.announced_version("plugin-2.0.1.zip"), "2.0.1");
}

#[test]
fn latest_artifact_is_selected() {
    let file = |name: &str, modified: i64| ArtifactFile {
        path: format!("/out/{}", name),
        file_name: name.to_string(),
        size: 1,
        modified,
    };
    assert_eq!(select_artifact(&Vec::new()), None);
    assert_eq!(select_artifact(&vec![file("a", 5)]), Some(0));
    assert_eq!(select_artifact(&vec![file("a", 5), file("b", 9), file("c", 7)]), Some(1));
    assert_eq!(select_artifact(&vec![file("a", 9), file("b", 9), file("c", 7)]), Some(1));
    assert_eq!(select_artifact(&vec![file("a", -3), file("b", -9)]), Some(0));
}

#[test]
fn package_description_is_read() {
    let xml = "<idea-plugin><id>x</id><name>Nice</name><vendor email=\"a@b\">ACME</vendor>\
<description><![CDATA[Does <b>things</b>]]></description>\
<idea-version since-build=\"231\" until-build=\"241.*\"/></idea-plugin>";
    let meta = extract_meta(xml).unwrap();
    assert_eq!(meta.name, Some("Nice".to_string()));
    assert_eq!(meta.vendor, Some("ACME".to_string()));
    assert_eq!(meta.description, Some("Does <b>things</b>".to_string()));
    assert_eq!(meta.since_build, Some("231".to_string()));
    assert_eq!(meta.until_build, Some("241.*".to_string()));
    let bare = extract_meta("<idea-plugin><name/><description></description></idea-plugin>").unwrap();
    assert_eq!(bare.name, None);
    assert_eq!(bare.vendor, None);
    assert_eq!(bare.description, None);
    assert_eq!(bare.since_build, None);
    assert!(extract_meta("not xml").is_none());
    assert!(extract_meta("").is_none());
    assert!(extract_meta("   \n").is_none());
    assert!(extract_meta("<!-- only a comment -->").is_none());
    assert!(extract_meta("<?xml version=\"1.0\" encoding=\"UTF-8\"?>").is_none());
    assert!(extract_meta("<?xml version=\"1.0\"?><!-- c --><?pi data?>").is_none());
    assert!(extract_meta("<a><b></a></b>").is_none());
    assert!(extract_meta("<a>&unknown;</a>").is_none());
}

#[test]
fn plain_listing_names_files_and_checksums() {
    let d = deployer();
    assert_eq!(d.build_repository_xml(&Vec::new()), "<plugins>\n\n</plugins>");
    assert_eq!(
        d.build_repository_xml(&vec![pair("a.zip", "00ff"), pair("b.zip", "11")]),
        "<plugins>\n    <plugin file=\"a.zip\" sha256=\"00ff\"/>\n    <plugin file=\"b.zip\" sha256=\"11\"/>\n\n</plugins>"
    );
}
