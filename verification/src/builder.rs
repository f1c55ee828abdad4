//! Building the plugin: which tool builds it, what its output says, and the
//! artifact that comes out.

use vstd::prelude::*;
use crate::config::Config;
use crate::deployer::{before_last_slash, cut_at_last_slash};
use crate::error::{concat, strings};
use crate::pattern::{
    capture, is_match, opt_text, regex_group, regex_match, regex_replaced, replace_first,
};
use crate::split::{lines, lines_of, texts};
use crate::text::{
    append, append_str, contains_str, contains_text, ends_with_str, ends_with_text, from_chars,
    lowercase, lowercase_of, same_str, slice, to_chars,
};

verus! {

/// The tool that builds a project.
#[derive(Debug, Clone, Copy, PartialEq, Eq, Structural)]
pub enum ProjectType {
    Gradle,
    Maven,
}

/// The file that a build produced. `build_time` counts seconds since the
/// epoch.
#[derive(Debug, Clone)]
pub struct PluginArtifact {
    pub file_path: String,
    pub file_name: String,
    pub file_size: u64,
    pub checksum_sha256: String,
    pub version: String,
    pub build_time: i64,
}

/// What a build came to.
#[derive(Debug, Clone)]
pub struct BuildResult {
    pub success: bool,
    pub artifact: Option<PluginArtifact>,
    pub build_time: i64,
    pub logs: Vec<String>,
    pub errors: Vec<String>,
}

/// Builds the plugin of one project.
#[derive(Debug, Clone)]
pub struct PluginBuilder {
    pub config: Config,
    pub project_root: String,
}

/// The pattern of a versioned artifact name.
pub open spec fn artifact_pattern() -> Seq<char> {
    r"-(\d+\.\d+\.\d+(?:-[a-zA-Z0-9]+)*)\.zip$"@
}

/// The name of an artifact with the version `version`: the version in the
/// name is replaced; a name without version gets it before `.zip`, or at
/// its end.
pub open spec fn versioned_name(filename: Seq<char>, version: Seq<char>) -> Seq<char> {
    match regex_match(artifact_pattern(), filename) {
        Some(true) => match regex_replaced(artifact_pattern(), filename, "-"@ + version + ".zip"@) {
            Some(t) => t,
            None => filename,
        },
        _ => if ends_with_text(filename, ".zip"@) {
            filename.subrange(0, filename.len() - 4) + "-"@ + version + ".zip"@
        } else {
            filename + "-"@ + version + ".zip"@
        },
    }
}

/// The first `limit` of `all`.
pub open spec fn first_of(all: Seq<Seq<char>>, limit: nat) -> Seq<Seq<char>> {
    if all.len() <= limit {
        all
    } else {
        all.subrange(0, limit as int)
    }
}

/// A line of the error stream tells of a failure.
pub open spec fn tells_failure(line: Seq<char>) -> bool {
    contains_text(lowercase_of(line), "error"@) || contains_text(lowercase_of(line), "failed"@)
}

/// The log entries that the lines of the output stream make.
pub open spec fn output_logs(all: Seq<Seq<char>>) -> Seq<Seq<char>> {
    all.map_values(|l: Seq<char>| "📝 "@ + l)
}

/// The log entries that the lines of the error stream make: those that
/// tell of no failure.
pub open spec fn warning_logs(all: Seq<Seq<char>>) -> Seq<Seq<char>>
    decreases all.len(),
{
    if all.len() == 0 {
        Seq::empty()
    } else if tells_failure(all.last()) {
        warning_logs(all.drop_last())
    } else {
        warning_logs(all.drop_last()).push("⚠️ "@ + all.last())
    }
}

/// The errors that the lines of the error stream make: those that tell of
/// a failure.
pub open spec fn failure_errors(all: Seq<Seq<char>>) -> Seq<Seq<char>>
    decreases all.len(),
{
    if all.len() == 0 {
        Seq::empty()
    } else if tells_failure(all.last()) {
        failure_errors(all.drop_last()).push("❌ "@ + all.last())
    } else {
        failure_errors(all.drop_last())
    }
}

/// The arguments of a Maven build under `profile`.
pub open spec fn maven_arguments(profile: Seq<char>) -> Seq<Seq<char>> {
    if profile == "release"@ {
        seq!["package"@, "-DskipTests"@]
    } else {
        seq!["package"@, "-DskipTests"@, "-P"@, profile]
    }
}

/// Some name of `names` is that of a plugin description.
pub open spec fn holds_description(names: Seq<Seq<char>>) -> bool {
    exists|i: int| 0 <= i < names.len() && ends_with_text(#[trigger] names[i], "plugin.xml"@)
}

impl PluginBuilder {
    /// A builder for the project at `project_root`.
    pub fn new(config: Config, project_root: String) -> (r: Self)
        ensures
            r.config == config,
            r.project_root == project_root,
    {
        PluginBuilder { config, project_root }
    }

    /// The tool that builds the project, told by the build files that it
    /// has: Gradle comes before Maven.
    pub fn detect_project_type(has_build_gradle: bool, has_build_gradle_kts: bool, has_pom: bool) -> (r:
        Result<ProjectType, String>)
        ensures
            has_build_gradle || has_build_gradle_kts ==> r == Ok::<ProjectType, String>(
                ProjectType::Gradle,
            ),
            !(has_build_gradle || has_build_gradle_kts) && has_pom ==> r == Ok::<
                ProjectType,
                String,
            >(ProjectType::Maven),
            !(has_build_gradle || has_build_gradle_kts || has_pom) ==> (r matches Err(e) && e@
                == "Не удалось определить тип проекта. Отсутствуют build.gradle, build.gradle.kts или pom.xml"@),
    {
        if has_build_gradle || has_build_gradle_kts {
            Ok(ProjectType::Gradle)
        } else if has_pom {
            Ok(ProjectType::Maven)
        } else {
            Err(
                "Не удалось определить тип проекта. Отсутствуют build.gradle, build.gradle.kts или pom.xml".to_owned(),
            )
        }
    }

    /// Whether the sources are where the tool wants them: Kotlin or Java
    /// sources for Gradle, Java sources for Maven.
    pub fn validate_project_structure(
        project_type: ProjectType,
        has_kotlin_sources: bool,
        has_java_sources: bool,
    ) -> (r: Result<(), String>)
        ensures
            match project_type {
                ProjectType::Gradle => if has_kotlin_sources || has_java_sources {
                    r is Ok
                } else {
                    r matches Err(e) && e@
                        == "Не найдена директория с исходниками (src/main/kotlin или src/main/java)"@
                },
                ProjectType::Maven => if has_java_sources {
                    r is Ok
                } else {
                    r matches Err(e) && e@
                        == "Не найдена директория с исходниками (src/main/java)"@
                },
            },
    {
        match project_type {
            ProjectType::Gradle => if has_kotlin_sources || has_java_sources {
                Ok(())
            } else {
                Err(
                    "Не найдена директория с исходниками (src/main/kotlin или src/main/java)".to_owned(),
                )
            },
            ProjectType::Maven => if has_java_sources {
                Ok(())
            } else {
                Err("Не найдена директория с исходниками (src/main/java)".to_owned())
            },
        }
    }

    /// The command that builds with Gradle: the wrapper where the project
    /// has one, with the configured task and arguments.
    pub fn build_gradle(&self, has_wrapper: bool) -> (r: (String, Vec<String>))
        ensures
            r.0@ == if has_wrapper {
                "./gradlew"@
            } else {
                "gradle"@
            },
            strings(r.1@) == seq![self.config.build.gradle_task@] + strings(
                self.config.build.build_args@,
            ),
    {
        let program = if has_wrapper {
            "./gradlew".to_owned()
        } else {
            "gradle".to_owned()
        };
        let mut args: Vec<String> = Vec::new();
        args.push(self.config.build.gradle_task.clone());
        let mut i: usize = 0;
        while i < self.config.build.build_args.len()
            invariant
                i <= self.config.build.build_args.len(),
                args.len() == i + 1,
                args@[0]@ == self.config.build.gradle_task@,
                forall|j: int|
                    0 <= j < i ==> (#[trigger] args@[j + 1])@ == self.config.build.build_args@[j]@,
            decreases self.config.build.build_args.len() - i,
        {
            args.push(self.config.build.build_args[i].clone());
            i = i + 1;
        }
        proof {
            let expected = seq![self.config.build.gradle_task@] + strings(
                self.config.build.build_args@,
            );
            assert(strings(args@).len() == expected.len());
            assert forall|k: int| 0 <= k < expected.len() implies strings(args@)[k]
                == expected[k] by {
                if k > 0 {
                    assert(args@[(k - 1) + 1]@ == self.config.build.build_args@[k - 1]@);
                }
            }
            assert(strings(args@) =~= expected);
        }
        (program, args)
    }

    /// The command that builds with Maven under `profile`.
    pub fn build_maven(&self, profile: &str) -> (r: (String, Vec<String>))
        ensures
            r.0@ == "mvn"@,
            strings(r.1@) == maven_arguments(profile@),
    {
        let mut args: Vec<String> = Vec::new();
        args.push("package".to_owned());
        args.push("-DskipTests".to_owned());
        if !same_str(profile, "release") {
            args.push("-P".to_owned());
            args.push(profile.to_owned());
        }
        assert(strings(args@) =~= maven_arguments(profile@));
        ("mvn".to_owned(), args)
    }

    /// Takes the output of the build tool into the record of the build:
    /// the first twenty lines of its output stream as log entries, and the
    /// first ten lines of its error stream as errors where they tell of a
    /// failure, else as log entries.
    pub fn read_output(stdout: &str, stderr: &str, logs: &mut Vec<String>, errors: &mut Vec<String>)
        ensures
            strings(final(logs)@) == strings(old(logs)@) + output_logs(
                first_of(lines_of(stdout@), 20),
            ) + warning_logs(first_of(lines_of(stderr@), 10)),
            strings(final(errors)@) == strings(old(errors)@) + failure_errors(
                first_of(lines_of(stderr@), 10),
            ),
    {
        let out = lines(&to_chars(stdout));
        let n = if out.len() < 20 {
            out.len()
        } else {
            20
        };
        let ghost shown = first_of(lines_of(stdout@), 20);
        assert(shown =~= texts(out@).subrange(0, n as int));
        let ghost logs_before = strings(logs@);
        let mut i: usize = 0;
        assert(logs_before + output_logs(shown.subrange(0, 0)) =~= logs_before);
        while i < n
            invariant
                i <= n <= out.len(),
                shown == texts(out@).subrange(0, n as int),
                strings(logs@) == logs_before + output_logs(shown.subrange(0, i as int)),
            decreases n - i,
        {
            let mut entry = to_chars("📝 ");
            append(&mut entry, &out[i]);
            let text = from_chars(&entry);
            let ghost prev = logs@;
            logs.push(text);
            assert(shown[i as int] == out@[i as int]@);
            assert(strings(logs@) =~= strings(prev).push(text@));
            assert(output_logs(shown.subrange(0, i + 1)) =~= output_logs(
                shown.subrange(0, i as int),
            ).push("📝 "@ + shown[i as int]));
            i = i + 1;
        }
        assert(shown.subrange(0, n as int) =~= shown);
        let err = lines(&to_chars(stderr));
        let m = if err.len() < 10 {
            err.len()
        } else {
            10
        };
        let ghost seen = first_of(lines_of(stderr@), 10);
        assert(seen =~= texts(err@).subrange(0, m as int));
        let ghost logs_middle = strings(logs@);
        let ghost errors_before = strings(errors@);
        let mut k: usize = 0;
        assert(seen.subrange(0, 0) =~= Seq::<Seq<char>>::empty());
        assert(logs_middle + warning_logs(seen.subrange(0, 0)) =~= logs_middle);
        assert(errors_before + failure_errors(seen.subrange(0, 0)) =~= errors_before);
        while k < m
            invariant
                k <= m <= err.len(),
                seen == texts(err@).subrange(0, m as int),
                strings(logs@) == logs_middle + warning_logs(seen.subrange(0, k as int)),
                strings(errors@) == errors_before + failure_errors(seen.subrange(0, k as int)),
            decreases m - k,
        {
            let ghost before = seen.subrange(0, k as int);
            let ghost after = seen.subrange(0, k + 1);
            assert(after.drop_last() =~= before);
            assert(after.last() == err@[k as int]@);
            let line = &err[k];
            let low = to_chars(lowercase(from_chars(line).as_str()).as_str());
            if contains_str(&low, "error") || contains_str(&low, "failed") {
                let mut entry = to_chars("❌ ");
                append(&mut entry, line);
                let text = from_chars(&entry);
                let ghost prev = errors@;
                errors.push(text);
                assert(strings(errors@) =~= strings(prev).push(text@));
            } else {
                let mut entry = to_chars("⚠️ ");
                append(&mut entry, line);
                let text = from_chars(&entry);
                let ghost prev = logs@;
                logs.push(text);
                assert(strings(logs@) =~= strings(prev).push(text@));
            }
            assert(strings(logs@) =~= logs_middle + warning_logs(after));
            assert(strings(errors@) =~= errors_before + failure_errors(after));
            k = k + 1;
        }
        assert(seen.subrange(0, m as int) =~= seen);
    }

    /// The version that an artifact's file name carries.
    pub fn extract_version_from_filename(&self, filename: &str) -> (r: Option<String>)
        ensures
            opt_text(r) == regex_group(artifact_pattern(), filename@, 1),
    {
        capture(r"-(\d+\.\d+\.\d+(?:-[a-zA-Z0-9]+)*)\.zip$", filename, 1)
    }

    /// The name of an artifact with the version `version`.
    pub fn apply_version_to_filename(filename: &str, version: &str) -> (r: String)
        ensures
            r@ == versioned_name(filename@, version@),
    {
        let pattern = r"-(\d+\.\d+\.\d+(?:-[a-zA-Z0-9]+)*)\.zip$";
        let mut ending = to_chars("-");
        append_str(&mut ending, version);
        append_str(&mut ending, ".zip");
        let ending_text = from_chars(&ending);
        match is_match(pattern, filename) {
            Some(true) => {
                match replace_first(pattern, filename, ending_text.as_str()) {
                    Some(t) => t,
                    None => filename.to_owned(),
                }
            },
            _ => {
                let name = to_chars(filename);
                if ends_with_str(&name, ".zip") {
                    proof {
                        reveal_strlit(".zip");
                    }
                    let mut out = slice(&name, 0, name.len() - 4);
                    append(&mut out, &ending);
                    from_chars(&out)
                } else {
                    let mut out = name;
                    append(&mut out, &ending);
                    from_chars(&out)
                }
            },
        }
    }

    /// The artifact as it is after it was renamed for `version`: its name
    /// carries the version, and it stays in its directory.
    pub fn renamed(artifact: PluginArtifact, version: &str) -> (r: PluginArtifact)
        ensures
            r.file_name@ == versioned_name(artifact.file_name@, version@),
            r.file_path@ == match before_last_slash(artifact.file_path@) {
                Some(dir) => dir + "/"@ + versioned_name(artifact.file_name@, version@),
                None => versioned_name(artifact.file_name@, version@),
            },
            r.version@ == version@,
            r.file_size == artifact.file_size,
            r.checksum_sha256 == artifact.checksum_sha256,
            r.build_time == artifact.build_time,
    {
        let name = Self::apply_version_to_filename(artifact.file_name.as_str(), version);
        let path = match cut_at_last_slash(&to_chars(artifact.file_path.as_str())) {
            Some(dir) => {
                let mut out = dir;
                append_str(&mut out, "/");
                append_str(&mut out, name.as_str());
                from_chars(&out)
            },
            None => name.clone(),
        };
        PluginArtifact {
            file_path: path,
            file_name: name,
            file_size: artifact.file_size,
            checksum_sha256: artifact.checksum_sha256,
            version: version.to_owned(),
            build_time: artifact.build_time,
        }
    }

    /// Whether an archive with the entries `names` holds a plugin
    /// description.
    pub fn validate_plugin_xml(names: &Vec<String>) -> (r: bool)
        ensures
            r == holds_description(strings(names@)),
    {
        let mut i: usize = 0;
        while i < names.len()
            invariant
                i <= names.len(),
                forall|j: int|
                    0 <= j < i ==> !ends_with_text(#[trigger] strings(names@)[j], "plugin.xml"@),
            decreases names.len() - i,
        {
            assert(strings(names@)[i as int] == names@[i as int]@);
            if ends_with_str(&to_chars(names[i].as_str()), "plugin.xml") {
                return true;
            }
            i = i + 1;
        }
        false
    }

    /// What stands against an artifact: it has to exist and to hold
    /// something.
    pub fn validate_artifact(artifact: &PluginArtifact, exists: bool) -> (r: Result<(), String>)
        ensures
            !exists ==> (r matches Err(e) && e@ == "Артефакт не найден: "@ + artifact.file_path@),
            exists && artifact.file_size == 0 ==> (r matches Err(e) && e@
                == "Артефакт имеет нулевой размер"@),
            exists && artifact.file_size > 0 ==> r is Ok,
    {
        if !exists {
            Err(concat("Артефакт не найден: ", artifact.file_path.as_str()))
        } else if artifact.file_size == 0 {
            Err("Артефакт имеет нулевой размер".to_owned())
        } else {
            Ok(())
        }
    }

    /// The outcome of a build: what was built, whether the artifact passed
    /// its validation, and the record so far. A build succeeds when it has
    /// an artifact and no error.
    pub fn build(
        built: Result<PluginArtifact, String>,
        validation: Result<(), String>,
        logs: Vec<String>,
        errors: Vec<String>,
        now: i64,
    ) -> (r: BuildResult)
        ensures
            r.build_time == now,
            match built {
                Ok(a) => r.artifact == Some(a) && strings(r.logs@) == strings(logs@).push(
                    "✅ Сборка завершена успешно"@,
                ) && match validation {
                    Ok(_) => r.errors == errors && r.success == (errors@.len() == 0),
                    Err(e) => strings(r.errors@) == strings(errors@).push(
                        "❌ Валидация артефакта не пройдена: "@ + e@,
                    ) && !r.success,
                },
                Err(e) => r.artifact is None && r.logs == logs && strings(r.errors@) == strings(
                    errors@,
                ).push("❌ Сборка не удалась: "@ + e@) && !r.success,
            },
    {
        let mut logs = logs;
        let mut errors = errors;
        match built {
            Ok(artifact) => {
                let ghost logs_before = logs@;
                logs.push("✅ Сборка завершена успешно".to_owned());
                assert(strings(logs@) =~= strings(logs_before).push("✅ Сборка завершена успешно"@));
                match validation {
                    Ok(_) => {
                        let success = errors.len() == 0;
                        BuildResult {
                            success,
                            artifact: Some(artifact),
                            build_time: now,
                            logs,
                            errors,
                        }
                    },
                    Err(e) => {
                        let ghost errors_before = errors@;
                        let text = concat("❌ Валидация артефакта не пройдена: ", e.as_str());
                        errors.push(text);
                        assert(strings(errors@) =~= strings(errors_before).push(text@));
                        BuildResult {
                            success: false,
                            artifact: Some(artifact),
                            build_time: now,
                            logs,
                            errors,
                        }
                    },
                }
            },
            Err(e) => {
                let ghost errors_before = errors@;
                let text = concat("❌ Сборка не удалась: ", e.as_str());
                errors.push(text);
                assert(strings(errors@) =~= strings(errors_before).push(text@));
                BuildResult { success: false, artifact: None, build_time: now, logs, errors }
            },
        }
    }
}

} // verus!
