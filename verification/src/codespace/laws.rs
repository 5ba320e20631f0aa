//! What holds of every run of an operation on a Codespace.

use vstd::prelude::*;

use crate::codespace::operations::{
    ask_launcher_begin, connect_zellij_begin, create_begin, current_state_begin, delete_begin,
    delete_if_exists_begin, prepare_remote_begin, stop_begin, ConnectFlow, CreateFlow,
    CurrentStateFlow, DeleteFlow, DeleteIfExistsFlow, LauncherFlow, PrepareFlow, StopFlow,
    CREATE_TRIES,
};
use crate::codespace::{codespace_name, RemoteSetup, RemoteZellijState, RepoInfo};
use crate::codespace::{cached_state, state_word};
use crate::flow::{is_run, Effect, Event, Flow};
use crate::gh::{GhCall, LauncherMode};

verus! {

/// The Codespace that an effect of an operation touches or asks about.
pub open spec fn touched(effect: Effect) -> Option<String> {
    match effect {
        Effect::Gh(GhCall::Copy { name, .. }) => Some(name),
        Effect::Gh(GhCall::Check { name, .. }) => Some(name),
        Effect::Gh(GhCall::Launcher { name, .. }) => Some(name),
        Effect::Gh(GhCall::Connect { name, .. }) => Some(name),
        Effect::Gh(GhCall::State { name }) => Some(name),
        Effect::Gh(GhCall::Stop { name }) => Some(name),
        Effect::Gh(GhCall::Delete { name }) => Some(name),
        Effect::DeleteCodespace { name, .. } => Some(name),
        Effect::AskLauncher { name, .. } => Some(name),
        _ => None,
    }
}

/// The first effect asked for the account of `gh`, and the answer was `login`.
pub open spec fn owner_answered(effects: Seq<Effect>, events: Seq<Event>, login: String) -> bool {
    &&& effects[0] == Effect::Gh(GhCall::Login)
    &&& events.len() > 0
    &&& events[0] matches Event::Text(current) && current@ == login@
}

/// The effect in place `k` touches at most the Codespace `name`, and that only if its owner
/// answered before. Besides that a run only asks for the account and ends.
pub open spec fn keeps_to(
    effects: Seq<Effect>,
    events: Seq<Event>,
    k: int,
    name: String,
    login: String,
) -> bool {
    match touched(effects[k]) {
        Some(n) => n == name && k > 0 && owner_answered(effects, events, login),
        None => effects[k] is Finish || (k == 0 && effects[k] == Effect::Gh(GhCall::Login)),
    }
}

proof fn stop_keeps_its_state(
    name: String,
    github_login: String,
    states: Seq<StopFlow>,
    effects: Seq<Effect>,
    events: Seq<Event>,
    k: int,
)
    requires
        is_run(states, effects, events),
        (states[0], effects[0]) == stop_begin(name, github_login),
        0 <= k < effects.len(),
    ensures
        keeps_to(effects, events, k, name, github_login),
        k > 0 && states[k] !is Over ==> owner_answered(effects, events, github_login) && match states[k] {
            StopFlow::Login { .. } => false,
            StopFlow::Stop { name: n } => n == name,
            _ => true,
        },
    decreases k,
{
    if k > 0 {
        stop_keeps_its_state(name, github_login, states, effects, events, k - 1);
        assert(states[k - 1].leads_to(events[k - 1], states[k], effects[k]));
    }
}

/// Stopping a Codespace touches no Codespace but the named one, and that only after
/// `gh` answered with the account that owns it.
pub proof fn stop_is_for_the_owner(
    name: String,
    github_login: String,
    states: Seq<StopFlow>,
    effects: Seq<Effect>,
    events: Seq<Event>,
    k: int,
)
    requires
        is_run(states, effects, events),
        (states[0], effects[0]) == stop_begin(name, github_login),
        0 <= k < effects.len(),
    ensures
        keeps_to(effects, events, k, name, github_login),
{
    stop_keeps_its_state(name, github_login, states, effects, events, k);
}

proof fn delete_keeps_its_state(
    name: String,
    github_login: String,
    states: Seq<DeleteFlow>,
    effects: Seq<Effect>,
    events: Seq<Event>,
    k: int,
)
    requires
        is_run(states, effects, events),
        (states[0], effects[0]) == delete_begin(name, github_login),
        0 <= k < effects.len(),
    ensures
        keeps_to(effects, events, k, name, github_login),
        k > 0 && states[k] !is Over ==> owner_answered(effects, events, github_login) && match states[k] {
            DeleteFlow::Login { .. } => false,
            _ => true,
        },
    decreases k,
{
    if k > 0 {
        delete_keeps_its_state(name, github_login, states, effects, events, k - 1);
        assert(states[k - 1].leads_to(events[k - 1], states[k], effects[k]));
    }
}

/// Deleting a Codespace touches no Codespace but the named one, and that only after
/// `gh` answered with the account that owns it.
pub proof fn delete_is_for_the_owner(
    name: String,
    github_login: String,
    states: Seq<DeleteFlow>,
    effects: Seq<Effect>,
    events: Seq<Event>,
    k: int,
)
    requires
        is_run(states, effects, events),
        (states[0], effects[0]) == delete_begin(name, github_login),
        0 <= k < effects.len(),
    ensures
        keeps_to(effects, events, k, name, github_login),
{
    delete_keeps_its_state(name, github_login, states, effects, events, k);
}

proof fn delete_if_exists_keeps_its_state(
    name: String,
    github_login: String,
    states: Seq<DeleteIfExistsFlow>,
    effects: Seq<Effect>,
    events: Seq<Event>,
    k: int,
)
    requires
        is_run(states, effects, events),
        (states[0], effects[0]) == delete_if_exists_begin(name, github_login),
        0 <= k < effects.len(),
    ensures
        keeps_to(effects, events, k, name, github_login),
        k > 0 && states[k] !is Over ==> owner_answered(effects, events, github_login) && match states[k] {
            DeleteIfExistsFlow::Login { .. } => false,
            DeleteIfExistsFlow::Delete { name: n } => n == name,
            _ => true,
        },
    decreases k,
{
    if k > 0 {
        delete_if_exists_keeps_its_state(name, github_login, states, effects, events, k - 1);
        assert(states[k - 1].leads_to(events[k - 1], states[k], effects[k]));
    }
}

/// Deleting a Codespace that may be gone touches no Codespace but the named one, and that only after
/// `gh` answered with the account that owns it.
pub proof fn delete_if_exists_is_for_the_owner(
    name: String,
    github_login: String,
    states: Seq<DeleteIfExistsFlow>,
    effects: Seq<Effect>,
    events: Seq<Event>,
    k: int,
)
    requires
        is_run(states, effects, events),
        (states[0], effects[0]) == delete_if_exists_begin(name, github_login),
        0 <= k < effects.len(),
    ensures
        keeps_to(effects, events, k, name, github_login),
{
    delete_if_exists_keeps_its_state(name, github_login, states, effects, events, k);
}

proof fn current_state_keeps_its_state(
    name: String,
    github_login: String,
    states: Seq<CurrentStateFlow>,
    effects: Seq<Effect>,
    events: Seq<Event>,
    k: int,
)
    requires
        is_run(states, effects, events),
        (states[0], effects[0]) == current_state_begin(name, github_login),
        0 <= k < effects.len(),
    ensures
        keeps_to(effects, events, k, name, github_login),
        k > 0 && states[k] !is Over ==> owner_answered(effects, events, github_login) && match states[k] {
            CurrentStateFlow::Login { .. } => false,
            CurrentStateFlow::State { name: n } => n == name,
            _ => true,
        },
    decreases k,
{
    if k > 0 {
        current_state_keeps_its_state(name, github_login, states, effects, events, k - 1);
        assert(states[k - 1].leads_to(events[k - 1], states[k], effects[k]));
    }
}

/// Asking for the state of a Codespace touches no Codespace but the named one, and that only after
/// `gh` answered with the account that owns it.
pub proof fn current_state_is_for_the_owner(
    name: String,
    github_login: String,
    states: Seq<CurrentStateFlow>,
    effects: Seq<Effect>,
    events: Seq<Event>,
    k: int,
)
    requires
        is_run(states, effects, events),
        (states[0], effects[0]) == current_state_begin(name, github_login),
        0 <= k < effects.len(),
    ensures
        keeps_to(effects, events, k, name, github_login),
{
    current_state_keeps_its_state(name, github_login, states, effects, events, k);
}

proof fn ask_launcher_keeps_its_state(
    name: String,
    uuid: String,
    github_login: String,
    mode: LauncherMode,
    states: Seq<LauncherFlow>,
    effects: Seq<Effect>,
    events: Seq<Event>,
    k: int,
)
    requires
        is_run(states, effects, events),
        (states[0], effects[0]) == ask_launcher_begin(name, uuid, github_login, mode),
        0 <= k < effects.len(),
    ensures
        keeps_to(effects, events, k, name, github_login),
        k > 0 && states[k] !is Over ==> owner_answered(effects, events, github_login) && match states[k] {
            LauncherFlow::Login { .. } => false,
            _ => true,
        },
    decreases k,
{
    if k > 0 {
        ask_launcher_keeps_its_state(name, uuid, github_login, mode, states, effects, events, k - 1);
        assert(states[k - 1].leads_to(events[k - 1], states[k], effects[k]));
    }
}

/// Asking the remote launcher touches no Codespace but the named one, and that only after
/// `gh` answered with the account that owns it.
pub proof fn ask_launcher_is_for_the_owner(
    name: String,
    uuid: String,
    github_login: String,
    mode: LauncherMode,
    states: Seq<LauncherFlow>,
    effects: Seq<Effect>,
    events: Seq<Event>,
    k: int,
)
    requires
        is_run(states, effects, events),
        (states[0], effects[0]) == ask_launcher_begin(name, uuid, github_login, mode),
        0 <= k < effects.len(),
    ensures
        keeps_to(effects, events, k, name, github_login),
{
    ask_launcher_keeps_its_state(name, uuid, github_login, mode, states, effects, events, k);
}

proof fn connect_zellij_keeps_its_state(
    name: String,
    workdir: String,
    uuid: String,
    github_login: String,
    attach_only: bool,
    states: Seq<ConnectFlow>,
    effects: Seq<Effect>,
    events: Seq<Event>,
    k: int,
)
    requires
        is_run(states, effects, events),
        (states[0], effects[0]) == connect_zellij_begin(
            name,
            workdir,
            uuid,
            github_login,
            attach_only,
        ),
        0 <= k < effects.len(),
    ensures
        keeps_to(effects, events, k, name, github_login),
        k > 0 && states[k] !is Over ==> owner_answered(effects, events, github_login) && match states[k] {
            ConnectFlow::Login { .. } => false,
            ConnectFlow::Clear { name: n, .. } => n == name,
            _ => true,
        },
    decreases k,
{
    if k > 0 {
        connect_zellij_keeps_its_state(
            name,
            workdir,
            uuid,
            github_login,
            attach_only,
            states,
            effects,
            events,
            k - 1,
        );
        assert(states[k - 1].leads_to(events[k - 1], states[k], effects[k]));
    }
}

/// Connecting to the remote session touches no Codespace but the named one, and that only after
/// `gh` answered with the account that owns it.
pub proof fn connect_zellij_is_for_the_owner(
    name: String,
    workdir: String,
    uuid: String,
    github_login: String,
    attach_only: bool,
    states: Seq<ConnectFlow>,
    effects: Seq<Effect>,
    events: Seq<Event>,
    k: int,
)
    requires
        is_run(states, effects, events),
        (states[0], effects[0]) == connect_zellij_begin(
            name,
            workdir,
            uuid,
            github_login,
            attach_only,
        ),
        0 <= k < effects.len(),
    ensures
        keeps_to(effects, events, k, name, github_login),
{
    connect_zellij_keeps_its_state(
        name,
        workdir,
        uuid,
        github_login,
        attach_only,
        states,
        effects,
        events,
        k,
    );
}

proof fn prepare_remote_keeps_its_state(
    setup: RemoteSetup,
    states: Seq<PrepareFlow>,
    effects: Seq<Effect>,
    events: Seq<Event>,
    k: int,
)
    requires
        is_run(states, effects, events),
        (states[0], effects[0]) == prepare_remote_begin(setup),
        0 <= k < effects.len(),
    ensures
        keeps_to(effects, events, k, setup.name, setup.github_login),
        k > 0 && states[k] !is Over ==> owner_answered(effects, events, setup.github_login) && match states[k] {
            PrepareFlow::Login(_) => false,
            PrepareFlow::CopyLauncher(s) => s == setup,
            PrepareFlow::CopyLayout(s) => s == setup,
            PrepareFlow::CopyConfig(s) => s == setup,
            PrepareFlow::State(s) => s == setup,
            _ => true,
        },
    decreases k,
{
    if k > 0 {
        prepare_remote_keeps_its_state(setup, states, effects, events, k - 1);
        assert(states[k - 1].leads_to(events[k - 1], states[k], effects[k]));
    }
}

/// Preparing a Codespace touches no Codespace but the named one, and that only after
/// `gh` answered with the account that owns it.
pub proof fn prepare_remote_is_for_the_owner(
    setup: RemoteSetup,
    states: Seq<PrepareFlow>,
    effects: Seq<Effect>,
    events: Seq<Event>,
    k: int,
)
    requires
        is_run(states, effects, events),
        (states[0], effects[0]) == prepare_remote_begin(setup),
        0 <= k < effects.len(),
    ensures
        keeps_to(effects, events, k, setup.name, setup.github_login),
{
    prepare_remote_keeps_its_state(setup, states, effects, events, k);
}

/// A created Codespace is looked for at most as often as is laid down: a run of `create`
/// that has not ended after that many looks ends next.
pub proof fn creation_ends(
    repo: RepoInfo,
    session_name: String,
    uuid: String,
    states: Seq<CreateFlow>,
    effects: Seq<Effect>,
    events: Seq<Event>,
)
    requires
        is_run(states, effects, events),
        (states[0], effects[0]) == create_begin(repo, session_name, uuid),
    ensures
        forall|k: int|
            2 * CREATE_TRIES < k < effects.len() ==> #[trigger] effects[k] is Finish,
{
    assert forall|k: int| 2 * CREATE_TRIES < k < effects.len() implies #[trigger] effects[
        k
    ] is Finish by {
        looks_are_counted(repo, session_name, uuid, states, effects, events, k);
    }
}

proof fn looks_are_counted(
    repo: RepoInfo,
    session_name: String,
    uuid: String,
    states: Seq<CreateFlow>,
    effects: Seq<Effect>,
    events: Seq<Event>,
    k: int,
)
    requires
        is_run(states, effects, events),
        (states[0], effects[0]) == create_begin(repo, session_name, uuid),
        0 <= k < effects.len(),
    ensures
        match states[k] {
            CreateFlow::Create { .. } => k == 0,
            CreateFlow::Look { left, .. } => k == 2 * (CREATE_TRIES - left) + 1 && 1 <= left
                <= CREATE_TRIES,
            CreateFlow::Wait { left, .. } => k == 2 * (CREATE_TRIES - left) + 2 && 1 <= left
                <= CREATE_TRIES,
            CreateFlow::Over => effects[k] is Finish,
        },
    decreases k,
{
    if k > 0 {
        looks_are_counted(repo, session_name, uuid, states, effects, events, k - 1);
        assert(states[k - 1].leads_to(events[k - 1], states[k], effects[k]));
    }
}

/// A name that `create` yields is a Codespace name.
pub proof fn created_names_are_valid(
    repo: RepoInfo,
    session_name: String,
    uuid: String,
    states: Seq<CreateFlow>,
    effects: Seq<Effect>,
    events: Seq<Event>,
    k: int,
)
    requires
        is_run(states, effects, events),
        (states[0], effects[0]) == create_begin(repo, session_name, uuid),
        0 <= k < effects.len(),
    ensures
        effects[k] matches Effect::Finish(Event::Text(name)) ==> codespace_name(name@),
{
    if k > 0 {
        assert(states[k - 1].leads_to(events[k - 1], states[k], effects[k]));
    }
}

proof fn words_differ()
    ensures
        "connecting"@ != "running"@,
        "connecting"@ != "exited"@,
        "connecting"@ != "missing"@,
        "connecting"@ != "legacy"@,
        "running"@ != "exited"@,
        "running"@ != "missing"@,
        "running"@ != "legacy"@,
        "exited"@ != "missing"@,
        "exited"@ != "legacy"@,
        "missing"@ != "legacy"@,
{
    reveal_strlit("connecting");
    reveal_strlit("running");
    reveal_strlit("exited");
    reveal_strlit("missing");
    reveal_strlit("legacy");
    assert("connecting"@[0] == 'c');
    assert("running"@[0] == 'r');
    assert("exited"@[0] == 'e');
    assert("missing"@[0] == 'm');
    assert("legacy"@[0] == 'l');
}

/// The stored word of a state of the remote session stands for that state.
pub proof fn stored_states_are_read_back(state: RemoteZellijState)
    ensures
        cached_state(state_word(state)) == Some(state),
{
    words_differ();
}

/// Every state that is understood when it is read is written as the word that was read.
pub proof fn read_states_are_written_back(word: Seq<char>)
    ensures
        cached_state(word) matches Some(state) ==> state_word(state) == word,
{
}

} // verus!
