//! A model of the host that a deployment works on, and what a deployment
//! comes to on a host where nothing fails.

use vstd::prelude::*;
use crate::transaction::{
    consistent, create_from, distinct_files, law_index_is_replaced_by_rename, next, remove_from,
    succ, upload_from, DeployAction, DeployError, DeployErrorKind, DeployEvent, DeployPhase,
    DeployPlan, DeploymentTransaction,
};

verus! {

/// What a host holds: the text of each file by its path, and the size of
/// each transferred artifact by its path.
pub ghost struct Host {
    pub files: Map<Seq<char>, Seq<char>>,
    pub sizes: Map<Seq<char>, u64>,
}

/// The text of the file at `path`, if there is one.
pub open spec fn text_at(host: Host, path: Seq<char>) -> Option<Seq<char>> {
    if host.files.contains_key(path) {
        Some(host.files[path])
    } else {
        None
    }
}

/// What a host on which nothing fails reports on `action`, and what it
/// holds afterwards. A check reports what the host holds. `merge` gives
/// the merged text for the text that was read, and `missing` is what is
/// said of a file that is not there.
pub open spec fn performed(
    host: Host,
    action: DeployAction,
    merge: spec_fn(Option<Seq<char>>) -> String,
    missing: String,
) -> (DeployEvent, Host) {
    match action {
        DeployAction::CheckIndex { path } => if host.files.contains_key(path@) {
            (DeployEvent::Succeeded, host)
        } else {
            (DeployEvent::Failed { detail: missing }, host)
        },
        DeployAction::Rename { from, to } => if host.files.contains_key(from@) {
            (
                DeployEvent::Succeeded,
                Host { files: host.files.remove(from@).insert(to@, host.files[from@]), ..host },
            )
        } else {
            (DeployEvent::Failed { detail: missing }, host)
        },
        DeployAction::Remove { path } => (
            DeployEvent::Succeeded,
            Host { files: host.files.remove(path@), sizes: host.sizes.remove(path@) },
        ),
        DeployAction::Upload { local, remote, size } => (
            DeployEvent::Succeeded,
            Host { sizes: host.sizes.insert(remote@, size), ..host },
        ),
        DeployAction::CheckSize { remote } => if host.sizes.contains_key(remote@) {
            (DeployEvent::Size { bytes: host.sizes[remote@] }, host)
        } else {
            (DeployEvent::Failed { detail: missing }, host)
        },
        DeployAction::MergeIndex { source, moved } => if host.files.contains_key(source@) {
            (DeployEvent::Merged { text: merge(Some(host.files[source@])) }, host)
        } else if moved {
            (DeployEvent::Failed { detail: missing }, host)
        } else {
            (DeployEvent::Merged { text: merge(None) }, host)
        },
        DeployAction::WriteTemp { path, content } => (
            DeployEvent::Succeeded,
            Host { files: host.files.insert(path@, content@), ..host },
        ),
        _ => (DeployEvent::Succeeded, host),
    }
}

/// The deployment after `steps` more steps on a host where nothing fails:
/// each step carries the action out and takes the report.
pub open spec fn run(
    plan: DeployPlan,
    s: DeploymentTransaction,
    action: DeployAction,
    host: Host,
    merge: spec_fn(Option<Seq<char>>) -> String,
    missing: String,
    steps: nat,
) -> (DeploymentTransaction, DeployAction, Host)
    decreases steps,
{
    if steps == 0 {
        (s, action, host)
    } else {
        let (event, then) = performed(host, action, merge, missing);
        let (t, b) = next(plan, s, event);
        run(plan, t, b, then, merge, missing, (steps - 1) as nat)
    }
}

/// The number of steps that a deployment takes on a host where nothing
/// fails: one to connect, one for each directory, one to look for the
/// index and one more to move it aside, two for each artifact, and three
/// to merge, write and swap.
pub open spec fn steps_to_publish(plan: DeployPlan, index_exists: bool) -> nat {
    (plan.directories@.len() + 2 * plan.artifacts@.len() + 5 + if index_exists {
        1nat
    } else {
        0nat
    }) as nat
}

/// A run of `n + m` steps is a run of `n` steps and then one of `m`.
pub proof fn lemma_run_in_two(
    plan: DeployPlan,
    s: DeploymentTransaction,
    action: DeployAction,
    host: Host,
    merge: spec_fn(Option<Seq<char>>) -> String,
    missing: String,
    n: nat,
    m: nat,
)
    ensures
        run(plan, s, action, host, merge, missing, n + m) == ({
            let (t, b, then) = run(plan, s, action, host, merge, missing, n);
            run(plan, t, b, then, merge, missing, m)
        }),
    decreases n,
{
    if n > 0 {
        let (event, then) = performed(host, action, merge, missing);
        let (t, b) = next(plan, s, event);
        lemma_run_in_two(plan, t, b, then, merge, missing, (n - 1) as nat, m);
        assert((n + m - 1) as nat == (n - 1) as nat + m);
    }
}

/// Creating the directories from directory `i` on takes one step each, and
/// ends with a look for the index; the host stays as it is.
pub proof fn lemma_directories_are_created(
    plan: DeployPlan,
    s: DeploymentTransaction,
    host: Host,
    merge: spec_fn(Option<Seq<char>>) -> String,
    missing: String,
    i: usize,
)
    requires
        i <= plan.directories@.len(),
    ensures
        run(
            plan,
            create_from(plan, s, i).0,
            create_from(plan, s, i).1,
            host,
            merge,
            missing,
            (plan.directories@.len() - i) as nat,
        ) == (
            DeploymentTransaction {
                phase: DeployPhase::CheckingIndex,
                next_directory: plan.directories.len(),
                ..s
            },
            DeployAction::CheckIndex { path: plan.index_path },
            host,
        ),
    decreases plan.directories@.len() - i,
{
    assert(plan.directories.len() == plan.directories@.len());
    if i < plan.directories@.len() {
        let first = create_from(plan, s, i);
        assert(performed(host, first.1, merge, missing) == (DeployEvent::Succeeded, host));
        assert(succ(i) == i + 1);
        assert(next(plan, first.0, DeployEvent::Succeeded) == create_from(plan, first.0, succ(i)));
        lemma_directories_are_created(plan, first.0, host, merge, missing, succ(i));
    }
}

/// Transferring the artifacts from artifact `i` on takes two steps each,
/// the transfer and the check of the size, and ends with the merge of the
/// index; the files of the host stay as they are.
pub proof fn lemma_artifacts_arrive(
    plan: DeployPlan,
    s: DeploymentTransaction,
    host: Host,
    merge: spec_fn(Option<Seq<char>>) -> String,
    missing: String,
    i: usize,
)
    requires
        i <= plan.artifacts@.len(),
        s.verified == i,
    ensures
        ({
            let (t, b, then) = run(
                plan,
                upload_from(plan, s, i).0,
                upload_from(plan, s, i).1,
                host,
                merge,
                missing,
                (2 * (plan.artifacts@.len() - i)) as nat,
            );
            &&& t.phase == DeployPhase::MergingIndex
            &&& t.verified == plan.artifacts@.len()
            &&& t.backup_created == s.backup_created
            &&& t.swap_completed == s.swap_completed
            &&& t.error == s.error
            &&& b == (DeployAction::MergeIndex {
                source: if s.backup_created {
                    plan.backup_path
                } else {
                    plan.index_path
                },
                moved: s.backup_created,
            })
            &&& then.files == host.files
        }),
    decreases plan.artifacts@.len() - i,
{
    assert(plan.artifacts.len() == plan.artifacts@.len());
    if i < plan.artifacts@.len() {
        let item = plan.artifacts@[i as int];
        let first = upload_from(plan, s, i);
        let loaded = Host { sizes: host.sizes.insert(item.remote@, item.size), ..host };
        assert(performed(host, first.1, merge, missing) == (DeployEvent::Succeeded, loaded));
        assert(succ(i) == i + 1);
        let second = next(plan, first.0, DeployEvent::Succeeded);
        assert(second.1 == (DeployAction::CheckSize { remote: item.remote }));
        assert(performed(loaded, second.1, merge, missing) == (
            DeployEvent::Size { bytes: item.size },
            loaded,
        ));
        let checked = DeploymentTransaction { verified: succ(i), ..second.0 };
        assert(next(plan, second.0, DeployEvent::Size { bytes: item.size }) == upload_from(
            plan,
            checked,
            succ(i),
        ));
        lemma_artifacts_arrive(plan, checked, loaded, merge, missing, succ(i));
        let rest = (2 * (plan.artifacts@.len() - succ(i))) as nat;
        lemma_run_in_two(plan, first.0, first.1, host, merge, missing, 2, rest);
        assert(run(plan, first.0, first.1, host, merge, missing, 2) == (
            upload_from(plan, checked, succ(i)).0,
            upload_from(plan, checked, succ(i)).1,
            loaded,
        )) by {
            assert(run(plan, second.0, second.1, loaded, merge, missing, 1) == run(
                plan,
                upload_from(plan, checked, succ(i)).0,
                upload_from(plan, checked, succ(i)).1,
                loaded,
                merge,
                missing,
                0,
            ));
        }
        assert(2 + rest == (2 * (plan.artifacts@.len() - i)) as nat);
    }
}

/// On a host where nothing fails a deployment completes, whatever the
/// number of directories and artifacts. The index then holds the merged
/// text, merged from the index that was there or from nothing; the index
/// that was there is kept as the backup; and every artifact has arrived
/// with its size.
pub proof fn law_deployment_publishes_the_merged_index(
    plan: DeployPlan,
    s: DeploymentTransaction,
    host: Host,
    merge: spec_fn(Option<Seq<char>>) -> String,
    missing: String,
)
    requires
        s.phase == DeployPhase::Start,
        s.verified == 0,
        !s.backup_created,
        s.error is None,
        plan.artifacts@.len() > 0,
        distinct_files(plan),
    ensures
        ({
            let begun = next(plan, s, DeployEvent::Begin);
            let (t, b, then) = run(
                plan,
                begun.0,
                begun.1,
                host,
                merge,
                missing,
                steps_to_publish(plan, host.files.contains_key(plan.index_path@)),
            );
            &&& b == DeployAction::Finish
            &&& t.phase == DeployPhase::Done
            &&& t.swap_completed
            &&& t.error is None
            &&& t.verified == plan.artifacts@.len()
            &&& text_at(then, plan.index_path@) == Some(
                merge(text_at(host, plan.index_path@))@,
            )
            &&& host.files.contains_key(plan.index_path@) ==> text_at(then, plan.backup_path@)
                == text_at(host, plan.index_path@)
        }),
{
    let index = plan.index_path@;
    let backup = plan.backup_path@;
    let temp = plan.temp_path@;
    let exists = host.files.contains_key(index);
    let directories = plan.directories@.len();
    let artifacts = plan.artifacts@.len();
    let begun = next(plan, s, DeployEvent::Begin);
    assert(begun.1 == DeployAction::Connect);
    // connecting, then the directories
    let connected = create_from(plan, begun.0, 0);
    assert(run(plan, begun.0, begun.1, host, merge, missing, 1) == (
        connected.0,
        connected.1,
        host,
    )) by {
        assert(performed(host, begun.1, merge, missing) == (DeployEvent::Succeeded, host));
        assert(run(plan, connected.0, connected.1, host, merge, missing, 0) == (
            connected.0,
            connected.1,
            host,
        ));
    }
    lemma_directories_are_created(plan, begun.0, host, merge, missing, 0);
    lemma_run_in_two(plan, begun.0, begun.1, host, merge, missing, 1, directories);
    let looking = DeploymentTransaction {
        phase: DeployPhase::CheckingIndex,
        next_directory: plan.directories.len(),
        ..begun.0
    };
    let look = DeployAction::CheckIndex { path: plan.index_path };
    assert(run(plan, begun.0, begun.1, host, merge, missing, 1 + directories) == (
        looking,
        look,
        host,
    ));
    // the index is moved aside where there is one
    let aside: nat = if exists {
        2
    } else {
        1
    };
    let moved = if exists {
        Host { files: host.files.remove(index).insert(backup, host.files[index]), ..host }
    } else {
        host
    };
    let ready = if exists {
        DeploymentTransaction { phase: DeployPhase::BackingUp, backup_created: true, ..looking }
    } else {
        looking
    };
    assert(run(plan, looking, look, host, merge, missing, aside) == (
        upload_from(plan, ready, 0).0,
        upload_from(plan, ready, 0).1,
        moved,
    )) by {
        if exists {
            let renaming = next(plan, looking, DeployEvent::Succeeded);
            assert(performed(host, look, merge, missing) == (DeployEvent::Succeeded, host));
            assert(performed(host, renaming.1, merge, missing) == (
                DeployEvent::Succeeded,
                moved,
            ));
            assert(next(plan, renaming.0, DeployEvent::Succeeded) == upload_from(plan, ready, 0));
            assert(run(plan, renaming.0, renaming.1, host, merge, missing, 1) == run(
                plan,
                upload_from(plan, ready, 0).0,
                upload_from(plan, ready, 0).1,
                moved,
                merge,
                missing,
                0,
            ));
        } else {
            assert(performed(host, look, merge, missing) == (
                DeployEvent::Failed { detail: missing },
                host,
            ));
            assert(run(
                plan,
                upload_from(plan, ready, 0).0,
                upload_from(plan, ready, 0).1,
                moved,
                merge,
                missing,
                0,
            ) == (upload_from(plan, ready, 0).0, upload_from(plan, ready, 0).1, moved));
        }
    }
    lemma_run_in_two(plan, begun.0, begun.1, host, merge, missing, 1 + directories, aside);
    // the artifacts
    lemma_artifacts_arrive(plan, ready, moved, merge, missing, 0);
    let transfers = (2 * artifacts) as nat;
    let merging = run(
        plan,
        upload_from(plan, ready, 0).0,
        upload_from(plan, ready, 0).1,
        moved,
        merge,
        missing,
        transfers,
    );
    lemma_run_in_two(
        plan,
        begun.0,
        begun.1,
        host,
        merge,
        missing,
        1 + directories + aside,
        transfers,
    );
    assert(run(plan, begun.0, begun.1, host, merge, missing, 1 + directories + aside + transfers)
        == merging);
    // merging, writing, swapping
    let text = merge(text_at(host, index));
    let written = Host { files: merging.2.files.insert(temp, text@), ..merging.2 };
    let swapped = Host { files: written.files.remove(temp).insert(index, text@), ..written };
    let done = DeploymentTransaction {
        phase: DeployPhase::Done,
        swap_completed: true,
        ..merging.0
    };
    assert(run(plan, merging.0, merging.1, merging.2, merge, missing, 3) == (
        done,
        DeployAction::Finish,
        swapped,
    )) by {
        assert(merging.2.files == moved.files);
        assert(performed(merging.2, merging.1, merge, missing) == (
            DeployEvent::Merged { text },
            merging.2,
        ));
        let writing = next(plan, merging.0, DeployEvent::Merged { text });
        assert(writing.1 == (DeployAction::WriteTemp { path: plan.temp_path, content: text }));
        assert(performed(merging.2, writing.1, merge, missing) == (
            DeployEvent::Succeeded,
            written,
        ));
        let swapping = next(plan, writing.0, DeployEvent::Succeeded);
        assert(swapping.1 == (DeployAction::Rename {
            from: plan.temp_path,
            to: plan.index_path,
        }));
        assert(performed(written, swapping.1, merge, missing) == (
            DeployEvent::Succeeded,
            swapped,
        ));
        assert(next(plan, swapping.0, DeployEvent::Succeeded) == (done, DeployAction::Finish));
        assert(run(plan, swapping.0, swapping.1, written, merge, missing, 1) == run(
            plan,
            done,
            DeployAction::Finish,
            swapped,
            merge,
            missing,
            0,
        ));
        assert(run(plan, writing.0, writing.1, merging.2, merge, missing, 2) == run(
            plan,
            swapping.0,
            swapping.1,
            written,
            merge,
            missing,
            1,
        ));
    }
    lemma_run_in_two(
        plan,
        begun.0,
        begun.1,
        host,
        merge,
        missing,
        1 + directories + aside + transfers,
        3,
    );
    assert(1 + directories + aside + transfers + 3 == steps_to_publish(plan, exists));
}

/// No artifact goes where the index or its backup is.
pub open spec fn artifacts_spare_the_index(plan: DeployPlan) -> bool {
    forall|i: int|
        0 <= i < plan.artifacts@.len() ==> (#[trigger] plan.artifacts@[i]).remote@
            != plan.index_path@ && plan.artifacts@[i].remote@ != plan.backup_path@
}

/// Cleaning up from transferred artifact `i` on takes one step for each
/// artifact that was transferred, and ends with the step that puts the
/// backup back or reports the failure. The artifacts are gone then, and the
/// index and its backup are as they were.
pub proof fn lemma_transfers_are_removed(
    plan: DeployPlan,
    s: DeploymentTransaction,
    host: Host,
    merge: spec_fn(Option<Seq<char>>) -> String,
    missing: String,
    i: usize,
)
    requires
        i <= s.uploaded <= plan.artifacts@.len(),
        s.error is Some,
        artifacts_spare_the_index(plan),
    ensures
        ({
            let (t, b, then) = run(
                plan,
                remove_from(plan, s, i).0,
                remove_from(plan, s, i).1,
                host,
                merge,
                missing,
                (s.uploaded - i) as nat,
            );
            &&& t.error == s.error
            &&& t.backup_created == s.backup_created
            &&& t.swap_completed == s.swap_completed
            &&& t.phase == (if s.backup_created {
                DeployPhase::RestoringIndex
            } else {
                DeployPhase::Failed
            })
            &&& b == (if s.backup_created {
                DeployAction::Rename { from: plan.backup_path, to: plan.index_path }
            } else {
                DeployAction::Abort { kind: s.error->Some_0.kind, detail: s.error->Some_0.detail }
            })
            &&& text_at(then, plan.index_path@) == text_at(host, plan.index_path@)
            &&& text_at(then, plan.backup_path@) == text_at(host, plan.backup_path@)
            &&& forall|p: Seq<char>|
                then.sizes.contains_key(p) ==> #[trigger] host.sizes.contains_key(p)
            &&& forall|j: int|
                i <= j < s.uploaded ==> !then.sizes.contains_key(
                    (#[trigger] plan.artifacts@[j]).remote@,
                )
        }),
    decreases s.uploaded - i,
{
    assert(plan.artifacts.len() == plan.artifacts@.len());
    if i < s.uploaded {
        let item = plan.artifacts@[i as int];
        let first = remove_from(plan, s, i);
        let cleared = Host {
            files: host.files.remove(item.remote@),
            sizes: host.sizes.remove(item.remote@),
        };
        assert(performed(host, first.1, merge, missing) == (DeployEvent::Succeeded, cleared));
        assert(succ(i) == i + 1);
        assert(next(plan, first.0, DeployEvent::Succeeded) == remove_from(plan, first.0, succ(i)));
        lemma_transfers_are_removed(plan, first.0, cleared, merge, missing, succ(i));
        let second = remove_from(plan, first.0, succ(i));
        let rest = run(
            plan,
            second.0,
            second.1,
            cleared,
            merge,
            missing,
            (s.uploaded - succ(i)) as nat,
        );
        assert((s.uploaded - i) as nat == 1 + (s.uploaded - succ(i)) as nat);
        assert(run(plan, first.0, first.1, host, merge, missing, (s.uploaded - i) as nat) == rest);
        assert(item.remote@ != plan.index_path@ && item.remote@ != plan.backup_path@);
        assert(text_at(cleared, plan.index_path@) == text_at(host, plan.index_path@));
        assert(text_at(cleared, plan.backup_path@) == text_at(host, plan.backup_path@));
        assert(!cleared.sizes.contains_key(item.remote@));
        assert forall|p: Seq<char>| rest.2.sizes.contains_key(p) implies #[trigger]
            host.sizes.contains_key(p) by {
            assert(cleared.sizes.contains_key(p));
        }
        assert forall|j: int| i <= j < s.uploaded implies !rest.2.sizes.contains_key(
            (#[trigger] plan.artifacts@[j]).remote@,
        ) by {
            if j == i {
                if rest.2.sizes.contains_key(item.remote@) {
                    assert(cleared.sizes.contains_key(item.remote@));
                }
            }
        }
    }
}

/// A deployment whose artifact arrives with another size than it has
/// locally ends in failure, on a host where nothing else fails: what was
/// transferred is removed, the index that was moved aside is back in its
/// place, and the failure reported is the size mismatch.
pub proof fn law_size_mismatch_leaves_the_old_index(
    plan: DeployPlan,
    s: DeploymentTransaction,
    host: Host,
    merge: spec_fn(Option<Seq<char>>) -> String,
    missing: String,
    bytes: u64,
)
    requires
        consistent(plan, s),
        s.phase == DeployPhase::Verifying,
        s.next_artifact < plan.artifacts@.len(),
        bytes != plan.artifacts@[s.next_artifact as int].size,
        artifacts_spare_the_index(plan),
        s.backup_created ==> host.files.contains_key(plan.backup_path@),
    ensures
        ({
            let failed = next(plan, s, DeployEvent::Size { bytes });
            let (t, b, then) = run(
                plan,
                failed.0,
                failed.1,
                host,
                merge,
                missing,
                s.uploaded as nat + if s.backup_created {
                    1nat
                } else {
                    0nat
                },
            );
            &&& t.phase == DeployPhase::Failed
            &&& b == (DeployAction::Abort { kind: DeployErrorKind::SizeMismatch, detail: None })
            &&& !t.swap_completed
            &&& text_at(then, plan.index_path@) == (if s.backup_created {
                text_at(host, plan.backup_path@)
            } else {
                text_at(host, plan.index_path@)
            })
            &&& forall|j: int|
                0 <= j < s.uploaded ==> !then.sizes.contains_key(
                    (#[trigger] plan.artifacts@[j]).remote@,
                )
        }),
{
    assert(plan.artifacts.len() == plan.artifacts@.len());
    let error = DeployError { kind: DeployErrorKind::SizeMismatch, detail: None };
    let marked = DeploymentTransaction { error: Some(error), ..s };
    let failed = next(plan, s, DeployEvent::Size { bytes });
    assert(failed == remove_from(plan, marked, 0));
    lemma_transfers_are_removed(plan, marked, host, merge, missing, 0);
    let removed = run(plan, failed.0, failed.1, host, merge, missing, s.uploaded as nat);
    if s.backup_created {
        let restored = Host {
            files: removed.2.files.remove(plan.backup_path@).insert(
                plan.index_path@,
                removed.2.files[plan.backup_path@],
            ),
            ..removed.2
        };
        assert(performed(removed.2, removed.1, merge, missing) == (
            DeployEvent::Succeeded,
            restored,
        ));
        let last = next(plan, removed.0, DeployEvent::Succeeded);
        assert(run(plan, removed.0, removed.1, removed.2, merge, missing, 1) == run(
            plan,
            last.0,
            last.1,
            restored,
            merge,
            missing,
            0,
        ));
        lemma_run_in_two(plan, failed.0, failed.1, host, merge, missing, s.uploaded as nat, 1);
    }
}

/// The index is never written in part. Whatever state a deployment is in
/// and whatever is reported to it, the action that it asks for leaves the
/// text of the index as it is, or moves a whole file: the index to its
/// backup, the temporary file to the index, or the backup to the index.
pub proof fn law_index_changes_by_whole_files(
    plan: DeployPlan,
    s: DeploymentTransaction,
    e: DeployEvent,
    host: Host,
    merge: spec_fn(Option<Seq<char>>) -> String,
    missing: String,
)
    requires
        distinct_files(plan),
        artifacts_spare_the_index(plan),
    ensures
        ({
            let action = next(plan, s, e).1;
            let then = performed(host, action, merge, missing).1;
            let index = plan.index_path@;
            ||| text_at(then, index) == text_at(host, index)
            ||| text_at(then, index) is None && text_at(then, plan.backup_path@) == text_at(
                host,
                index,
            )
            ||| text_at(then, index) == text_at(host, plan.temp_path@)
            ||| text_at(then, index) == text_at(host, plan.backup_path@)
        }),
{
    law_index_is_replaced_by_rename(plan, s, e);
    let action = next(plan, s, e).1;
    let then = performed(host, action, merge, missing).1;
    match action {
        DeployAction::Remove { path } => {
            assert(path@ != plan.index_path@);
        },
        DeployAction::Rename { from, to } => {
            if host.files.contains_key(from@) {
                if from == plan.index_path {
                    assert(!then.files.contains_key(plan.index_path@));
                }
            }
        },
        _ => {},
    }
}

} // verus!
