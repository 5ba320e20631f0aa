//! Laws of how Codespaces are named, listed and found again.

use vstd::prelude::*;

use crate::codespace::{
    after_slash, display_name_text, listed_states, named, workdir_failure, workdir_text,
    workspace_path, CodespaceIdentity, CodespaceListItem, RemoteState, MAX_DISPLAY_NAME_LEN,
};
use crate::display::short_text;
use crate::failure::Failure;

verus! {

proof fn name_follows_the_slash(owner: Seq<char>, name: Seq<char>)
    requires
        !name.contains('/'),
    ensures
        after_slash(owner + seq!['/'] + name) == name,
    decreases name.len(),
{
    let whole = owner + seq!['/'] + name;
    if name.len() == 0 {
        assert(whole.last() == '/');
        assert(name =~= Seq::empty());
    } else {
        let start = name.drop_last();
        assert(!start.contains('/')) by {
            if start.contains('/') {
                let i = start.index_of('/');
                assert(name[i] == '/');
            }
        }
        assert(name.last() != '/') by {
            assert(name.contains(name[name.len() - 1]));
        }
        assert(whole.drop_last() =~= owner + seq!['/'] + start);
        name_follows_the_slash(owner, start);
        assert(start.push(name.last()) =~= name);
    }
}

/// The workspace of a repository has the name of the repository, whoever owns it.
pub proof fn workspace_is_named_after_the_repository(owner: Seq<char>, name: Seq<char>)
    requires
        !name.contains('/'),
    ensures
        workdir_text(owner + seq!['/'] + name) == "/workspaces/"@ + name,
{
    name_follows_the_slash(owner, name);
}

/// A repository without a workspace is one that is not in owner/name form, or one whose name is
/// not safe.
pub proof fn repositories_have_safe_workspaces(repo: String)
    ensures
        workdir_failure(repo) is None <==> repo@.contains('/') && workspace_path(
            workdir_text(repo@),
        ),
        workdir_failure(repo) == Some(Failure::RepoForm) <==> !repo@.contains('/'),
        workdir_failure(repo) matches Some(Failure::UnsafeRepository { repo: given }) ==> given
            == repo,
{
}

/// The display name of a Codespace begins with the shortcode of its session, goes on with the
/// session's name as far as there is room, and is never longer than allowed.
pub proof fn display_name_shows_the_session(session_name: Seq<char>, uuid: Seq<char>)
    ensures
        ({
            let shown = display_name_text(session_name, uuid);
            let full = "csm-"@ + short_text(uuid) + "-"@ + session_name;
            &&& shown.len() <= MAX_DISPLAY_NAME_LEN
            &&& full.len() <= MAX_DISPLAY_NAME_LEN ==> shown == full
            &&& full.len() > MAX_DISPLAY_NAME_LEN ==> shown.len() == MAX_DISPLAY_NAME_LEN
            &&& forall|i: int| 0 <= i < shown.len() ==> shown[i] == full[i]
        }),
{
    let full = "csm-"@ + short_text(uuid) + "-"@ + session_name;
    assert(full.take(full.len() as int) =~= full);
}

/// The Codespaces that are found for a display name are those that have it.
pub proof fn codespaces_are_found_by_display_name(
    items: Seq<CodespaceIdentity>,
    display_name: Seq<char>,
    name: String,
)
    ensures
        named(items, display_name).contains(name) <==> exists|i: int|
            0 <= i < items.len() && (#[trigger] items[i]).display_name@ == display_name
                && items[i].name == name,
    decreases items.len(),
{
    if items.len() > 0 {
        let rest = items.drop_last();
        let last = items.len() - 1;
        let before = named(rest, display_name);
        let all = named(items, display_name);
        codespaces_are_found_by_display_name(rest, display_name, name);
        if all.contains(name) {
            let k = all.index_of(name);
            if k < before.len() {
                assert(before[k] == name);
                let i = choose|i: int|
                    0 <= i < rest.len() && (#[trigger] rest[i]).display_name@ == display_name
                        && rest[i].name == name;
                assert(items[i] == rest[i]);
            } else {
                assert(items[last].name == name);
            }
        }
        if exists|i: int|
            0 <= i < items.len() && (#[trigger] items[i]).display_name@ == display_name
                && items[i].name == name {
            let i = choose|i: int|
                0 <= i < items.len() && (#[trigger] items[i]).display_name@ == display_name
                    && items[i].name == name;
            if i < last {
                assert(rest[i] == items[i]);
                let k = before.index_of(name);
                assert(all[k] == name);
            } else {
                assert(all[all.len() - 1] == name);
            }
        }
    }
}

/// What is known from a list of Codespaces is what the list says of each: a Codespace is known
/// exactly if it is listed, and in the state and on the branch that its last entry has.
pub proof fn listed_codespaces_are_known(items: Seq<CodespaceListItem>, i: int, name: Seq<char>)
    requires
        0 <= i < items.len(),
        forall|j: int| i < j < items.len() ==> (#[trigger] items[j]).name@ != items[i].name@,
    ensures
        listed_states(items).contains_key(items[i].name@),
        listed_states(items)[items[i].name@] == (RemoteState {
            state: items[i].state,
            branch: items[i].branch,
        }),
        (forall|j: int| 0 <= j < items.len() ==> (#[trigger] items[j]).name@ != name)
            ==> !listed_states(items).contains_key(name),
    decreases items.len(),
{
    let rest = items.drop_last();
    unlisted_are_unknown(items, name);
    if i < items.len() - 1 {
        assert(items[items.len() - 1].name@ != items[i].name@);
        assert forall|j: int| i < j < rest.len() implies (#[trigger] rest[j]).name@
            != rest[i].name@ by {
            assert(rest[j] == items[j]);
        }
        listed_codespaces_are_known(rest, i, name);
    }
}

proof fn unlisted_are_unknown(items: Seq<CodespaceListItem>, name: Seq<char>)
    ensures
        (forall|j: int| 0 <= j < items.len() ==> (#[trigger] items[j]).name@ != name)
            ==> !listed_states(items).contains_key(name),
    decreases items.len(),
{
    if items.len() > 0 {
        let rest = items.drop_last();
        unlisted_are_unknown(rest, name);
        if forall|j: int| 0 <= j < items.len() ==> (#[trigger] items[j]).name@ != name {
            assert forall|j: int| 0 <= j < rest.len() implies (#[trigger] rest[j]).name@ != name by {
                assert(rest[j] == items[j]);
            }
            assert(items[items.len() - 1].name@ != name);
        }
    }
}

} // verus!
