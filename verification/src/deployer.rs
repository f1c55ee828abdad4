//! Deployment of an artifact: which artifact to take, where it will be
//! found on the web, and the index document that announces it.

use vstd::prelude::*;
use crate::config::{basic_complaint, reports, Config, ConfigError};
use crate::error::strings;
use crate::index::{
    is_merge_of, is_new_entry, merge_index, meta_or_nothing, MetaView, PluginMeta,
};
use crate::paths::{
    chain_of, chain_state, directories_to_create, directory_chain, parent, parent_of,
    relative_deploy_path, relative_path,
};
use crate::split::texts;
use crate::transaction::{DeployPlan, PlannedUpload};
use crate::pattern::{
    capture, escape, is_match, opt_text, regex_escaped, regex_group, regex_match, regex_replaced,
    replace_first,
};
use crate::text::{
    append, append_str, contains_text, ends_with_str, ends_with_text, from_chars,
    is_last_occurrence, rfind, slice, to_chars,
};
use crate::xml::{
    attribute_value, first_child_named, find_child, has_text, inner_text, is_plain_element,
    parse_document, write_document, xml_parsed, xml_written, XmlElement, XmlNode,
};

verus! {

/// A file that may be deployed. `modified` counts seconds since the epoch.
#[derive(Debug, Clone)]
pub struct ArtifactFile {
    pub path: String,
    pub file_name: String,
    pub size: u64,
    pub modified: i64,
}

/// The merged index: its text and, when the merge was made on the parsed
/// document, the merged document.
#[derive(Debug)]
pub struct MergedIndex {
    pub text: String,
    pub document: Option<XmlElement>,
}

/// Carries out deployments for one configuration.
#[derive(Debug, Clone)]
pub struct Deployer {
    pub config: Config,
}

/// `i` is the artifact to deploy: none is modified later, and none that
/// comes after it is modified as late.
pub open spec fn is_latest(files: Seq<ArtifactFile>, i: int) -> bool {
    &&& 0 <= i < files.len()
    &&& forall|j: int| 0 <= j < files.len() ==> files[j].modified <= files[i].modified
    &&& forall|j: int| i < j < files.len() ==> files[j].modified < files[i].modified
}

/// The pattern of an artifact's file name: the version stands between a
/// hyphen and `.zip`.
pub open spec fn version_pattern() -> Seq<char> {
    r"-(\d+\.\d+\.\d+(?:-[A-Za-z0-9.]+)*)\.zip$"@
}

/// The version that an artifact's file name carries.
pub open spec fn file_version(file_name: Seq<char>) -> Option<Seq<char>> {
    regex_group(version_pattern(), file_name, 1)
}

/// `u` without trailing slashes.
pub open spec fn without_trailing_slashes(u: Seq<char>) -> Seq<char>
    decreases u.len(),
{
    if u.len() > 0 && u.last() == '/' {
        without_trailing_slashes(u.drop_last())
    } else {
        u
    }
}

/// What stands before the last slash of `t`; `None` without a slash.
pub open spec fn before_last_slash(t: Seq<char>) -> Option<Seq<char>>
    decreases t.len(),
{
    if t.len() == 0 {
        None
    } else if t.last() == '/' {
        Some(t.drop_last())
    } else {
        before_last_slash(t.drop_last())
    }
}

/// The web address of the directory that holds the index: the configured
/// address without trailing slashes and, where it names an `.xml` file,
/// without that file.
pub open spec fn base_directory_url(url: Seq<char>) -> Seq<char> {
    let t = without_trailing_slashes(url);
    if ends_with_text(t, ".xml"@) {
        match before_last_slash(t) {
            Some(d) => d,
            None => t,
        }
    } else {
        t
    }
}

/// The web address of the artifact `file_name`, below the directory `rel`
/// if there is one.
pub open spec fn artifact_url(base: Seq<char>, rel: Option<Seq<char>>, file_name: Seq<char>) -> Seq<
    char,
> {
    match rel {
        Some(r) => base + "/"@ + r + "/"@ + file_name,
        None => base + "/"@ + file_name,
    }
}

/// The version to announce for `file_name`: the one in its name, else
/// `0.0.0`.
pub open spec fn announced_version(file_name: Seq<char>) -> Seq<char> {
    match file_version(file_name) {
        Some(v) => v,
        None => "0.0.0"@,
    }
}

/// The entry of a plugin written out as text, with its name as only child.
pub open spec fn plugin_snippet(
    id: Seq<char>,
    url: Seq<char>,
    version: Seq<char>,
    name: Seq<char>,
) -> Seq<char> {
    "<plugin id=\""@ + id + "\" url=\""@ + url + "\" version=\""@ + version + "\"><name>"@ + name
        + "</name></plugin>"@
}

/// The pattern that finds the entry of plugin `id` in the text of an
/// index.
pub open spec fn entry_pattern(id: Seq<char>) -> Seq<char> {
    "(?s)<plugin\\b[^>]*\\bid=\""@ + regex_escaped(id) + "\"[^>]*>.*?</plugin>"@
}

/// `raw` with `snippet` put before its last closing root tag, or at its end
/// when there is no such tag.
pub open spec fn with_snippet_inserted(raw: Seq<char>, snippet: Seq<char>) -> Seq<char> {
    if contains_text(raw, "</plugins>"@) {
        let i = choose|i: int| is_last_occurrence(raw, "</plugins>"@, i);
        raw.subrange(0, i) + snippet + raw.subrange(i, raw.len() as int)
    } else {
        raw + snippet
    }
}

/// The index merged as text: the entry of plugin `id` replaced by
/// `snippet` where the pattern finds it, else `snippet` put before the
/// closing root tag; a minimal document when there was no index. Text in
/// which the pattern cannot be searched stays as it is.
pub open spec fn textual_merge(existing: Option<Seq<char>>, id: Seq<char>, snippet: Seq<char>) -> Seq<
    char,
> {
    match existing {
        None => "<?xml version=\"1.0\" encoding=\"UTF-8\"?><plugins>"@ + snippet + "</plugins>"@,
        Some(raw) => match regex_match(entry_pattern(id), raw) {
            Some(true) => match regex_replaced(entry_pattern(id), raw, snippet) {
                Some(t) => t,
                None => raw,
            },
            Some(false) => with_snippet_inserted(raw, snippet),
            None => raw,
        },
    }
}

/// `m` is a fresh index: a plain `plugins` root whose only child is the new
/// entry of plugin `id`.
pub open spec fn is_fresh_index(
    m: XmlElement,
    id: Seq<char>,
    url: Seq<char>,
    version: Seq<char>,
    meta: MetaView,
    project_name: Seq<char>,
) -> bool {
    is_plain_element(m, "plugins"@) && m.attributes@.len() == 0 && m.children@.len() == 1
        && is_new_entry(m.children@[0], id, url, version, None, meta, project_name)
}

/// `m` is the merged index: the document that `existing` writes with the
/// new release in it, or a fresh index where there is none.
pub open spec fn is_merged_document(
    m: XmlElement,
    existing: Option<Seq<char>>,
    id: Seq<char>,
    url: Seq<char>,
    version: Seq<char>,
    meta: MetaView,
    project_name: Seq<char>,
) -> bool {
    match existing {
        Some(raw) => xml_parsed(raw) matches Some(root) && is_merge_of(
            m,
            root,
            id,
            url,
            version,
            meta,
            project_name,
        ),
        None => is_fresh_index(m, id, url, version, meta, project_name),
    }
}

/// The path of `name` in the directory `dir`.
pub open spec fn joined_path(dir: Seq<char>, name: Seq<char>) -> Seq<char> {
    if dir.len() == 0 || dir.last() == '/' {
        dir + name
    } else {
        dir + "/"@ + name
    }
}

/// `plan` is the plan to deploy `files` under the repository settings:
/// the directories of the artifacts and of the index are created, outermost
/// first; the backup and the temporary file stand next to the index, named
/// after it with `.bak` and `.tmp`; each file goes into the deploy
/// directory under its own name.
pub open spec fn is_plan_for(
    plan: DeployPlan,
    deploy_path: Seq<char>,
    index_path: Seq<char>,
    files: Seq<ArtifactFile>,
) -> bool {
    &&& strings(plan.directories@) == directory_chain(deploy_path) + chain_state(
        parent_of(index_path),
    ).1
    &&& plan.index_path@ == index_path
    &&& plan.backup_path@ == index_path + ".bak"@
    &&& plan.temp_path@ == index_path + ".tmp"@
    &&& plan.artifacts@.len() == files.len()
    &&& forall|i: int|
        0 <= i < files.len() ==> (#[trigger] plan.artifacts@[i]).local@ == files[i].path@
            && plan.artifacts@[i].remote@ == joined_path(deploy_path, files[i].file_name@)
            && plan.artifacts@[i].size == files[i].size
}

/// The temporary file and the backup of a plan are other files than the
/// index.
pub proof fn law_plan_spares_the_index(
    plan: DeployPlan,
    deploy_path: Seq<char>,
    index_path: Seq<char>,
    files: Seq<ArtifactFile>,
)
    requires
        is_plan_for(plan, deploy_path, index_path, files),
    ensures
        plan.temp_path@ != plan.index_path@,
        plan.backup_path@ != plan.index_path@,
        plan.temp_path@ != plan.backup_path@,
{
    reveal_strlit(".bak");
    reveal_strlit(".tmp");
    assert((index_path + ".tmp"@).len() == index_path.len() + 4);
    assert((index_path + ".bak"@).len() == index_path.len() + 4);
    assert((index_path + ".tmp"@)[index_path.len() as int + 1] == 't');
    assert((index_path + ".bak"@)[index_path.len() as int + 1] == 'b');
}

/// One line of the plain artifact listing.
pub open spec fn listing_line(name: Seq<char>, sha: Seq<char>) -> Seq<char> {
    "    <plugin file=\""@ + name + "\" sha256=\""@ + sha + "\"/>\n"@
}

/// The lines of the plain artifact listing.
pub open spec fn listing_lines(items: Seq<(String, String)>) -> Seq<char>
    decreases items.len(),
{
    if items.len() == 0 {
        Seq::empty()
    } else {
        listing_lines(items.drop_last()) + listing_line(items.last().0@, items.last().1@)
    }
}

/// What the package description `root` says of the plugin: the text of its
/// `name` and `vendor`, its `description`, and the build range of its
/// `idea-version`.
pub open spec fn described_meta(root: XmlElement) -> MetaView {
    let c = root.children@;
    MetaView {
        name: child_text(c, "name"@),
        vendor: child_text(c, "vendor"@),
        description: match first_child_named(c, "description"@) {
            Some(e) => if inner_text(e.children@).len() > 0 {
                Some(inner_text(e.children@))
            } else {
                None
            },
            None => None,
        },
        since_build: match first_child_named(c, "idea-version"@) {
            Some(e) => attribute_value(e.attributes@, "since-build"@),
            None => None,
        },
        until_build: match first_child_named(c, "idea-version"@) {
            Some(e) => attribute_value(e.attributes@, "until-build"@),
            None => None,
        },
    }
}

/// The text of the first child called `name`, if it holds any.
pub open spec fn child_text(nodes: Seq<XmlNode>, name: Seq<char>) -> Option<Seq<char>> {
    match first_child_named(nodes, name) {
        Some(e) => if has_text(e.children@) {
            Some(inner_text(e.children@))
        } else {
            None
        },
        None => None,
    }
}

/// The text of the first child called `name`, if it holds any.
pub fn text_of_child(nodes: &Vec<XmlNode>, name: &str) -> (r: Option<String>)
    ensures
        opt_text(r) == child_text(nodes@, name@),
{
    match find_child(nodes, name) {
        Some(i) => match &nodes[i] {
            XmlNode::Element(e) => e.text(),
            _ => None,
        },
        None => None,
    }
}

/// The attribute `key` of the first child called `name`.
pub fn attribute_of_child(nodes: &Vec<XmlNode>, name: &str, key: &str) -> (r: Option<String>)
    ensures
        opt_text(r) == match first_child_named(nodes@, name@) {
            Some(e) => attribute_value(e.attributes@, key@),
            None => None,
        },
{
    match find_child(nodes, name) {
        Some(i) => match &nodes[i] {
            XmlNode::Element(e) => e.attribute(key),
            _ => None,
        },
        None => None,
    }
}

/// What the package description `root` says of the plugin.
pub fn meta_of_document(root: &XmlElement) -> (r: PluginMeta)
    ensures
        r@ == described_meta(*root),
{
    let description = match find_child(&root.children, "description") {
        Some(i) => match &root.children[i] {
            XmlNode::Element(e) => match e.text() {
                Some(t) => if t.as_str().unicode_len() > 0 {
                    Some(t)
                } else {
                    None
                },
                None => {
                    proof {
                        lemma_no_text_is_empty(e.children@);
                    }
                    None
                },
            },
            _ => None,
        },
        None => None,
    };
    PluginMeta {
        name: text_of_child(&root.children, "name"),
        vendor: text_of_child(&root.children, "vendor"),
        description,
        since_build: attribute_of_child(&root.children, "idea-version", "since-build"),
        until_build: attribute_of_child(&root.children, "idea-version", "until-build"),
    }
}

/// Nodes without text or character data hold the empty text.
pub proof fn lemma_no_text_is_empty(nodes: Seq<XmlNode>)
    requires
        !has_text(nodes),
    ensures
        inner_text(nodes).len() == 0,
    decreases nodes.len(),
{
    if nodes.len() > 0 {
        assert(!(nodes[nodes.len() - 1] is Text || nodes[nodes.len() - 1] is CData));
        assert forall|i: int| 0 <= i < nodes.drop_last().len() implies !((
        #[trigger] nodes.drop_last()[i]) is Text || nodes.drop_last()[i] is CData) by {
            assert(nodes.drop_last()[i] == nodes[i]);
        }
        lemma_no_text_is_empty(nodes.drop_last());
    }
}

/// The plugin that the text of a package description tells of; `None` when
/// the text is no XML document.
pub fn extract_meta(plugin_xml: &str) -> (r: Option<PluginMeta>)
    ensures
        match xml_parsed(plugin_xml@) {
            Some(root) => r matches Some(m) && m@ == described_meta(root),
            None => r is None,
        },
{
    match parse_document(plugin_xml) {
        Some(root) => Some(meta_of_document(&root)),
        None => None,
    }
}

/// The artifact to deploy among `files`: the most recently modified one,
/// the last of them where several are equally recent.
pub fn select_artifact(files: &Vec<ArtifactFile>) -> (r: Option<usize>)
    ensures
        files.len() == 0 ==> r is None,
        files.len() > 0 ==> (r matches Some(i) && is_latest(files@, i as int)),
{
    if files.len() == 0 {
        return None;
    }
    let mut best: usize = 0;
    let mut i: usize = 1;
    while i < files.len()
        invariant
            1 <= i <= files.len(),
            best < i,
            forall|j: int| 0 <= j < i ==> files@[j].modified <= files@[best as int].modified,
            forall|j: int| best < j < i ==> files@[j].modified < files@[best as int].modified,
        decreases files.len() - i,
    {
        if files[i].modified >= files[best].modified {
            best = i;
        }
        i = i + 1;
    }
    Some(best)
}

/// `u` without trailing slashes.
pub fn trim_trailing_slashes(u: &Vec<char>) -> (r: Vec<char>)
    ensures
        r@ == without_trailing_slashes(u@),
{
    let mut n: usize = u.len();
    assert(u@.subrange(0, n as int) =~= u@);
    while n > 0 && u[n - 1] == '/'
        invariant
            n <= u.len(),
            without_trailing_slashes(u@) == without_trailing_slashes(u@.subrange(0, n as int)),
        decreases n,
    {
        assert(u@.subrange(0, n as int).drop_last() =~= u@.subrange(0, n - 1));
        n = n - 1;
    }
    slice(u, 0, n)
}

/// What stands before the last slash of `t`.
pub fn cut_at_last_slash(t: &Vec<char>) -> (r: Option<Vec<char>>)
    ensures
        match r {
            Some(d) => before_last_slash(t@) == Some(d@),
            None => before_last_slash(t@) is None,
        },
{
    let mut n: usize = t.len();
    assert(t@.subrange(0, n as int) =~= t@);
    while n > 0 && t[n - 1] != '/'
        invariant
            n <= t.len(),
            before_last_slash(t@) == before_last_slash(t@.subrange(0, n as int)),
        decreases n,
    {
        assert(t@.subrange(0, n as int).drop_last() =~= t@.subrange(0, n - 1));
        n = n - 1;
    }
    if n == 0 {
        None
    } else {
        assert(t@.subrange(0, n as int).drop_last() =~= t@.subrange(0, n - 1));
        Some(slice(t, 0, n - 1))
    }
}

/// The web address of the directory that holds the index.
pub fn base_url(url: &str) -> (r: Vec<char>)
    ensures
        r@ == base_directory_url(url@),
{
    let trimmed = trim_trailing_slashes(&to_chars(url));
    if ends_with_str(&trimmed, ".xml") {
        match cut_at_last_slash(&trimmed) {
            Some(d) => d,
            None => trimmed,
        }
    } else {
        trimmed
    }
}

/// The entry of a plugin written out as text.
pub fn make_snippet(id: &str, url: &str, version: &str, name: &str) -> (r: String)
    ensures
        r@ == plugin_snippet(id@, url@, version@, name@),
{
    let mut out = to_chars("<plugin id=\"");
    append_str(&mut out, id);
    append_str(&mut out, "\" url=\"");
    append_str(&mut out, url);
    append_str(&mut out, "\" version=\"");
    append_str(&mut out, version);
    append_str(&mut out, "\"><name>");
    append_str(&mut out, name);
    append_str(&mut out, "</name></plugin>");
    from_chars(&out)
}

/// `raw` with `snippet` put before its last closing root tag, or at its
/// end.
pub fn insert_snippet(raw: &str, snippet: &str) -> (r: String)
    ensures
        r@ == with_snippet_inserted(raw@, snippet@),
{
    let text = to_chars(raw);
    let tag = to_chars("</plugins>");
    match rfind(&text, &tag) {
        Some(i) => {
            proof {
                let chosen = choose|k: int| is_last_occurrence(raw@, "</plugins>"@, k);
                assert(is_last_occurrence(raw@, "</plugins>"@, i as int));
                assert(chosen == i);
            }
            let mut out = slice(&text, 0, i);
            append_str(&mut out, snippet);
            append(&mut out, &slice(&text, i, text.len()));
            from_chars(&out)
        },
        None => {
            let mut out = text;
            append_str(&mut out, snippet);
            from_chars(&out)
        },
    }
}

/// Merges the entry `snippet` of plugin `id` into the text of an index.
pub fn merge_as_text(existing: Option<&str>, id: &str, snippet: &str) -> (r: String)
    ensures
        r@ == textual_merge(crate::history::opt_str(existing), id@, snippet@),
{
    match existing {
        None => {
            let mut out = to_chars("<?xml version=\"1.0\" encoding=\"UTF-8\"?><plugins>");
            append_str(&mut out, snippet);
            append_str(&mut out, "</plugins>");
            from_chars(&out)
        },
        Some(raw) => {
            let mut pattern = to_chars("(?s)<plugin\\b[^>]*\\bid=\"");
            append_str(&mut pattern, escape(id).as_str());
            append_str(&mut pattern, "\"[^>]*>.*?</plugin>");
            let pattern_text = from_chars(&pattern);
            match is_match(pattern_text.as_str(), raw) {
                Some(true) => match replace_first(pattern_text.as_str(), raw, snippet) {
                    Some(t) => t,
                    None => raw.to_owned(),
                },
                Some(false) => insert_snippet(raw, snippet),
                None => raw.to_owned(),
            }
        },
    }
}

impl Deployer {
    /// A deployer for `config`.
    pub fn new(config: Config) -> (r: Self)
        ensures
            r.config == config,
    {
        Deployer { config }
    }

    /// Checks the configuration before a deployment.
    pub fn validate(&self) -> (r: Result<(), ConfigError>)
        ensures
            reports(r, basic_complaint(self.config)),
    {
        self.config.validate()
    }

    /// The version that an artifact's file name carries.
    pub fn extract_version_from_filename(&self, filename: &str) -> (r: Option<String>)
        ensures
            opt_text(r) == file_version(filename@),
    {
        capture(r"-(\d+\.\d+\.\d+(?:-[A-Za-z0-9.]+)*)\.zip$", filename, 1)
    }

    /// The web address under which the artifact `file_name` will be found.
    pub fn artifact_url(&self, file_name: &str) -> (r: String)
        ensures
            r@ == artifact_url(
                base_directory_url(self.config.repository.url@),
                relative_deploy_path(
                    self.config.repository.xml_path@,
                    self.config.repository.deploy_path@,
                ),
                file_name@,
            ),
    {
        let mut out = base_url(self.config.repository.url.as_str());
        let rel = relative_path(
            &to_chars(self.config.repository.xml_path.as_str()),
            &to_chars(self.config.repository.deploy_path.as_str()),
        );
        append_str(&mut out, "/");
        match rel {
            Some(r) => {
                append(&mut out, &r);
                append_str(&mut out, "/");
            },
            None => {},
        }
        append_str(&mut out, file_name);
        from_chars(&out)
    }

    /// The version to announce for the artifact `file_name`.
    pub fn announced_version(&self, file_name: &str) -> (r: String)
        ensures
            r@ == announced_version(file_name@),
    {
        match self.extract_version_from_filename(file_name) {
            Some(v) => v,
            None => "0.0.0".to_owned(),
        }
    }

    /// The index that announces the artifact `file_name`. An index that
    /// parses is merged as a document: every entry of other plugins stays
    /// as it is. Without an index the document is a fresh one. The merge is
    /// done as text in two cases only: the index does not parse, or the
    /// merged document cannot be written.
    pub fn build_merged_repository_xml(
        &self,
        existing_raw: Option<&str>,
        file_name: &str,
        meta: Option<&PluginMeta>,
    ) -> (r: MergedIndex)
        ensures
            ({
                let id = self.config.project.id@;
                let name = self.config.project.name@;
                let url = artifact_url(
                    base_directory_url(self.config.repository.url@),
                    relative_deploy_path(
                        self.config.repository.xml_path@,
                        self.config.repository.deploy_path@,
                    ),
                    file_name@,
                );
                let version = announced_version(file_name@);
                let existing = crate::history::opt_str(existing_raw);
                let described = meta_or_nothing(meta);
                match r.document {
                    Some(m) => xml_written(m) == Some(r.text@) && is_merged_document(
                        m,
                        existing,
                        id,
                        url,
                        version,
                        described,
                        name,
                    ),
                    None => r.text@ == textual_merge(
                        existing,
                        id,
                        plugin_snippet(id, url, version, name),
                    ) && ((existing matches Some(raw) && xml_parsed(raw) is None) || exists|
                        m: XmlElement,
                    |
                        is_merged_document(m, existing, id, url, version, described, name)
                            && #[trigger] xml_written(m) is None),
                }
            }),
            existing_raw matches Some(raw) && xml_parsed(raw@) is None ==> r.document is None,
    {
        let id = self.config.project.id.as_str();
        let name = self.config.project.name.as_str();
        let url = self.artifact_url(file_name);
        let version = self.announced_version(file_name);
        let source = match existing_raw {
            Some(raw) => parse_document(raw),
            None => Some(XmlElement::new("plugins")),
        };
        match source {
            Some(root) => {
                let merged = merge_index(root, id, url.as_str(), version.as_str(), meta, name);
                assert(is_merged_document(
                    merged,
                    crate::history::opt_str(existing_raw),
                    id@,
                    url@,
                    version@,
                    meta_or_nothing(meta),
                    name@,
                ));
                match write_document(&merged) {
                    Some(text) => {
                        return MergedIndex { text, document: Some(merged) };
                    },
                    None => {
                        assert(xml_written(merged) is None);
                    },
                }
            },
            None => {},
        }
        let snippet = make_snippet(id, url.as_str(), version.as_str(), name);
        MergedIndex { text: merge_as_text(existing_raw, id, snippet.as_str()), document: None }
    }

    /// The plan of a deployment of `files`.
    pub fn plan(&self, files: &Vec<ArtifactFile>) -> (r: DeployPlan)
        ensures
            is_plan_for(
                r,
                self.config.repository.deploy_path@,
                self.config.repository.xml_path@,
                files@,
            ),
    {
        let deploy = to_chars(self.config.repository.deploy_path.as_str());
        let index = to_chars(self.config.repository.xml_path.as_str());
        let first = directories_to_create(&deploy);
        let second = chain_of(&parent(&index));
        let mut directories: Vec<String> = Vec::new();
        let mut i: usize = 0;
        while i < first.len()
            invariant
                i <= first.len(),
                directories.len() == i,
                forall|j: int| 0 <= j < i ==> (#[trigger] directories@[j])@ == first@[j]@,
            decreases first.len() - i,
        {
            directories.push(from_chars(&first[i]));
            i = i + 1;
        }
        let mut k: usize = 0;
        while k < second.len()
            invariant
                k <= second.len(),
                directories.len() == first.len() + k,
                forall|j: int| 0 <= j < first.len() ==> (#[trigger] directories@[j])@ == first@[j]@,
                forall|j: int|
                    0 <= j < k ==> (#[trigger] directories@[first.len() + j])@ == second@[j]@,
            decreases second.len() - k,
        {
            directories.push(from_chars(&second[k]));
            k = k + 1;
        }
        proof {
            let joined = texts(first@) + texts(second@);
            assert(strings(directories@).len() == joined.len());
            assert forall|j: int| 0 <= j < joined.len() implies strings(directories@)[j]
                == joined[j] by {
                if j >= first.len() {
                    let d = j - first.len();
                    assert(directories@[first.len() + d]@ == second@[d]@);
                }
            }
            assert(strings(directories@) =~= joined);
        }
        let mut artifacts: Vec<PlannedUpload> = Vec::new();
        let mut a: usize = 0;
        while a < files.len()
            invariant
                a <= files.len(),
                artifacts.len() == a,
                deploy@ == self.config.repository.deploy_path@,
                forall|j: int|
                    0 <= j < a ==> (#[trigger] artifacts@[j]).local@ == files@[j].path@
                        && artifacts@[j].remote@ == joined_path(
                        self.config.repository.deploy_path@,
                        files@[j].file_name@,
                    ) && artifacts@[j].size == files@[j].size,
            decreases files.len() - a,
        {
            let mut remote = slice(&deploy, 0, deploy.len());
            assert(deploy@.subrange(0, deploy.len() as int) =~= deploy@);
            if !(deploy.len() == 0 || deploy[deploy.len() - 1] == '/') {
                append_str(&mut remote, "/");
            }
            append_str(&mut remote, files[a].file_name.as_str());
            artifacts.push(
                PlannedUpload {
                    local: files[a].path.clone(),
                    remote: from_chars(&remote),
                    size: files[a].size,
                },
            );
            a = a + 1;
        }
        let mut backup = slice(&index, 0, index.len());
        assert(index@.subrange(0, index.len() as int) =~= index@);
        append_str(&mut backup, ".bak");
        let mut temp = slice(&index, 0, index.len());
        append_str(&mut temp, ".tmp");
        DeployPlan {
            directories,
            index_path: self.config.repository.xml_path.clone(),
            backup_path: from_chars(&backup),
            temp_path: from_chars(&temp),
            artifacts,
        }
    }

    /// A plain listing of artifacts with their checksums.
    pub fn build_repository_xml(&self, items: &Vec<(String, String)>) -> (r: String)
        ensures
            r@ == "<plugins>\n"@ + listing_lines(items@) + "\n</plugins>"@,
    {
        let mut out = to_chars("<plugins>\n");
        let ghost head = out@;
        let mut i: usize = 0;
        assert(items@.subrange(0, 0) =~= Seq::<(String, String)>::empty());
        assert(out@ =~= head + listing_lines(items@.subrange(0, 0)));
        while i < items.len()
            invariant
                i <= items.len(),
                out@ == head + listing_lines(items@.subrange(0, i as int)),
            decreases items.len() - i,
        {
            assert(items@.subrange(0, i + 1).drop_last() =~= items@.subrange(0, i as int));
            append_str(&mut out, "    <plugin file=\"");
            append_str(&mut out, items[i].0.as_str());
            append_str(&mut out, "\" sha256=\"");
            append_str(&mut out, items[i].1.as_str());
            append_str(&mut out, "\"/>\n");
            assert(out@ =~= head + listing_lines(items@.subrange(0, i + 1)));
            i = i + 1;
        }
        assert(items@.subrange(0, items.len() as int) =~= items@);
        append_str(&mut out, "\n</plugins>");
        from_chars(&out)
    }
}

} // verus!
