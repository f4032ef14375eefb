//! The supervisor's messages: the commands it listens to and what it
//! publishes, with their subjects.
use crate::pub_sub::{compose_subject, ClientId, MessageParseError, Subject};
use crate::registry::{has_id, ActiveClients, ActiveClientsList};
use crate::text::{push_text, same_text};
use vstd::prelude::*;

verus! {

/// The commands that the supervisor listens to, on `command.<name>`.
#[derive(Copy, Clone, Debug, PartialEq, Eq)]
pub enum SupervisorCommand {
    StartController,
    StopController,
    SwitchController,
    ListActiveClients,
    Stop,
}

/// The subject of a supervisor command.
pub open spec fn command_subject_text(c: SupervisorCommand) -> Seq<char> {
    match c {
        SupervisorCommand::StartController => "command.start_controller"@,
        SupervisorCommand::StopController => "command.stop_controller"@,
        SupervisorCommand::SwitchController => "command.switch_controller"@,
        SupervisorCommand::ListActiveClients => "command.list_active_clients"@,
        SupervisorCommand::Stop => "command.stop"@,
    }
}

/// The command whose subject is `s`, if any.
pub open spec fn command_of_subject(s: Seq<char>) -> Option<SupervisorCommand> {
    if s == "command.start_controller"@ {
        Some(SupervisorCommand::StartController)
    } else if s == "command.stop_controller"@ {
        Some(SupervisorCommand::StopController)
    } else if s == "command.switch_controller"@ {
        Some(SupervisorCommand::SwitchController)
    } else if s == "command.list_active_clients"@ {
        Some(SupervisorCommand::ListActiveClients)
    } else if s == "command.stop"@ {
        Some(SupervisorCommand::Stop)
    } else {
        None
    }
}

impl SupervisorCommand {
    /// The subject on which the command is sent.
    pub fn subject(&self) -> (r: Subject)
        ensures
            r.0@ == command_subject_text(*self),
    {
        match self {
            SupervisorCommand::StartController => Subject::from_text("command.start_controller"),
            SupervisorCommand::StopController => Subject::from_text("command.stop_controller"),
            SupervisorCommand::SwitchController => Subject::from_text(
                "command.switch_controller",
            ),
            SupervisorCommand::ListActiveClients => Subject::from_text(
                "command.list_active_clients",
            ),
            SupervisorCommand::Stop => Subject::from_text("command.stop"),
        }
    }

    /// Reads the command from the subject of a received message.
    pub fn from_subject(subject: &str) -> (r: Result<SupervisorCommand, MessageParseError>)
        ensures
            match r {
                Ok(c) => command_of_subject(subject@) == Some(c),
                Err(e) => command_of_subject(subject@) is None && (e matches MessageParseError::InvalidSubject(s) && s.0@ == subject@),
            },
    {
        if same_text(subject, "command.start_controller") {
            Ok(SupervisorCommand::StartController)
        } else if same_text(subject, "command.stop_controller") {
            Ok(SupervisorCommand::StopController)
        } else if same_text(subject, "command.switch_controller") {
            Ok(SupervisorCommand::SwitchController)
        } else if same_text(subject, "command.list_active_clients") {
            Ok(SupervisorCommand::ListActiveClients)
        } else if same_text(subject, "command.stop") {
            Ok(SupervisorCommand::Stop)
        } else {
            Err(MessageParseError::InvalidSubject(Subject::from_text(subject)))
        }
    }
}

/// A command sent on its own subject is read back as that command.
pub proof fn law_command_subject_round_trip(c: SupervisorCommand)
    ensures
        command_of_subject(command_subject_text(c)) == Some(c),
{
    reveal_strlit("command.start_controller");
    reveal_strlit("command.stop_controller");
    reveal_strlit("command.switch_controller");
    reveal_strlit("command.list_active_clients");
    reveal_strlit("command.stop");
    assert("command.start_controller"@.len() == 24);
    assert("command.stop_controller"@.len() == 23);
    assert("command.switch_controller"@.len() == 25);
    assert("command.list_active_clients"@.len() == 27);
    assert("command.stop"@.len() == 12);
}

/// Each command travels on its own name under `command.`, and that name is
/// read back as that command; no other text is read as a command.
pub proof fn law_command_names()
    ensures
        command_subject_text(SupervisorCommand::StartController) == "command.start_controller"@,
        command_subject_text(SupervisorCommand::StopController) == "command.stop_controller"@,
        command_subject_text(SupervisorCommand::SwitchController) == "command.switch_controller"@,
        command_subject_text(SupervisorCommand::ListActiveClients)
            == "command.list_active_clients"@,
        command_subject_text(SupervisorCommand::Stop) == "command.stop"@,
        command_of_subject("command.start_controller"@) == Some(SupervisorCommand::StartController),
        command_of_subject("command.stop_controller"@) == Some(SupervisorCommand::StopController),
        command_of_subject("command.switch_controller"@) == Some(
            SupervisorCommand::SwitchController,
        ),
        command_of_subject("command.list_active_clients"@) == Some(
            SupervisorCommand::ListActiveClients,
        ),
        command_of_subject("command.stop"@) == Some(SupervisorCommand::Stop),
        forall|t: Seq<char>|
            command_of_subject(t) is Some ==> (t == "command.start_controller"@ || t
                == "command.stop_controller"@ || t == "command.switch_controller"@ || t
                == "command.list_active_clients"@ || t == "command.stop"@),
{
    law_command_subject_round_trip(SupervisorCommand::StartController);
    law_command_subject_round_trip(SupervisorCommand::StopController);
    law_command_subject_round_trip(SupervisorCommand::SwitchController);
    law_command_subject_round_trip(SupervisorCommand::ListActiveClients);
    law_command_subject_round_trip(SupervisorCommand::Stop);
}

/// What the supervisor publishes; `C` is the configuration of a controller.
#[derive(Clone, Debug)]
pub enum SupervisorPubMsg<C> {
    /// The active clients, in reply to `command.list_active_clients`.
    ActiveClients(ActiveClientsList<C>),
    /// Asks client `client_id` to shut down.
    KillClient { client_id: ClientId },
}

impl<C> SupervisorPubMsg<C> {
    /// The subject of the message.
    pub fn subject(&self) -> (r: Subject)
        ensures
            match self {
                SupervisorPubMsg::ActiveClients(_) => r.0@ == "supervisor.active_clients"@,
                SupervisorPubMsg::KillClient { client_id } => r.0@ == "supervisor.kill."@
                    + client_id.0@ + ""@,
            },
    {
        match self {
            SupervisorPubMsg::ActiveClients(_) => Subject::from_text("supervisor.active_clients"),
            SupervisorPubMsg::KillClient { client_id } => compose_subject(
                "supervisor.kill.",
                client_id,
                "",
            ),
        }
    }
}

/// Why a start, stop or switch of a controller failed.
#[derive(Clone, Debug)]
pub enum ControllerCommandError {
    /// No controller with this id is active.
    Missing(ClientId),
    /// A controller with this id is already active.
    AlreadyActive(ClientId),
    /// The controller could not be made from its configuration.
    Controller,
    /// The running controller could not be shut down; the text says why.
    Kill(String),
}

/// The other kinds of clients are left as they were.
pub open spec fn others_unchanged<C>(before: ActiveClients<C>, after: ActiveClients<C>) -> bool {
    &&& after.sensors.view() == before.sensors.view()
    &&& after.actors.view() == before.actors.view()
    &&& after.misc.view() == before.misc.view()
}

/// Registers controller `id`, started from `config`. `built` is the
/// controller made from the configuration, or `None` when it could not be
/// made; on success it is handed back for the caller to run.
///
/// Refused, with the registry unchanged, when a controller `id` is already
/// active, and otherwise when nothing was built.
pub fn start_step<C, B>(clients: &mut ActiveClients<C>, id: ClientId, config: C, built: Option<B>) -> (r:
    Result<B, ControllerCommandError>)
    requires
        old(clients).controllers.wf(),
    ensures
        final(clients).controllers.wf(),
        others_unchanged(*old(clients), *final(clients)),
        old(clients).controllers.has(id.0@) ==> (r matches Err(
            ControllerCommandError::AlreadyActive(e),
        ) && e.0@ == id.0@) && final(clients).controllers.view() == old(clients).controllers.view(),
        !old(clients).controllers.has(id.0@) && built is None ==> (r matches Err(
            ControllerCommandError::Controller,
        )) && final(clients).controllers.view() == old(clients).controllers.view(),
        !old(clients).controllers.has(id.0@) && built is Some ==> r == Ok::<
            B,
            ControllerCommandError,
        >(built->0) && final(clients).controllers.view() == old(clients).controllers.view().push(
            (id, config),
        ),
{
    if clients.controllers.contains(&id) {
        return Err(ControllerCommandError::AlreadyActive(id));
    }
    match built {
        None => Err(ControllerCommandError::Controller),
        Some(b) => {
            let _ = clients.controllers.insert(id, config);
            Ok(b)
        },
    }
}

/// Unregisters controller `id` and hands back its configuration; the caller
/// then shuts its task down. Refused, with the registry unchanged, when no
/// controller `id` is active.
pub fn stop_step<C>(clients: &mut ActiveClients<C>, id: &ClientId) -> (r: Result<
    C,
    ControllerCommandError,
>)
    requires
        old(clients).controllers.wf(),
    ensures
        final(clients).controllers.wf(),
        others_unchanged(*old(clients), *final(clients)),
        !old(clients).controllers.has(id.0@) ==> (r matches Err(ControllerCommandError::Missing(e))
            && e.0@ == id.0@) && final(clients).controllers.view() == old(clients).controllers.view(),
        old(clients).controllers.has(id.0@) ==> exists|i: int|
            0 <= i < old(clients).controllers.view().len() && old(clients).controllers.view()[i].0.0@
                == id.0@ && r == Ok::<C, ControllerCommandError>(
                old(clients).controllers.view()[i].1,
            ) && final(clients).controllers.view() == old(clients).controllers.view().remove(i),
        !final(clients).controllers.has(id.0@),
{
    match clients.controllers.remove(id) {
        Ok(config) => Ok(config),
        Err(_) => Err(ControllerCommandError::Missing(id.duplicate())),
    }
}

/// Replaces the running controller `id` by one started from `config`, once
/// the caller has shut the old one down. `built` is the new controller, or
/// `None` when it could not be made; on success it is handed back for the
/// caller to run.
///
/// Refused, with the registry unchanged, when no controller `id` is active.
/// When nothing was built the old controller stays stopped.
pub fn switch_step<C, B>(clients: &mut ActiveClients<C>, id: ClientId, config: C, built: Option<
    B,
>) -> (r: Result<B, ControllerCommandError>)
    requires
        old(clients).controllers.wf(),
    ensures
        final(clients).controllers.wf(),
        others_unchanged(*old(clients), *final(clients)),
        !old(clients).controllers.has(id.0@) ==> (r matches Err(ControllerCommandError::Missing(e))
            && e.0@ == id.0@) && final(clients).controllers.view() == old(clients).controllers.view(),
        old(clients).controllers.has(id.0@) ==> exists|i: int|
            0 <= i < old(clients).controllers.view().len() && old(clients).controllers.view()[i].0.0@
                == id.0@ && match built {
                None => (r matches Err(ControllerCommandError::Controller)) && final(clients).controllers.view() == old(clients).controllers.view().remove(i),
                Some(b) => r == Ok::<B, ControllerCommandError>(b) && final(clients).controllers.view() == old(clients).controllers.view().remove(i).push(
                    (id, config),
                ),
            },
{
    match clients.controllers.remove(&id) {
        Err(_) => Err(ControllerCommandError::Missing(id)),
        Ok(_) => start_step(clients, id, config, built),
    }
}

/// A switch keeps the same controllers active: replacing the entry of
/// controller `id` by a new entry for `id` leaves every id exactly as active
/// as it was.
pub proof fn law_switch_keeps_active_ids<C>(
    before: Seq<(ClientId, C)>,
    i: int,
    id: ClientId,
    config: C,
)
    requires
        0 <= i < before.len(),
        before[i].0.0@ == id.0@,
    ensures
        forall|x: Seq<char>| has_id(before, x) <==> has_id(before.remove(i).push((id, config)), x),
{
    let after = before.remove(i).push((id, config));
    assert forall|x: Seq<char>| has_id(before, x) implies has_id(after, x) by {
        let j = choose|j: int| 0 <= j < before.len() && #[trigger] before[j].0.0@ == x;
        if j == i {
            assert(after[after.len() - 1].0.0@ == x);
        } else if j < i {
            assert(after[j].0.0@ == x);
        } else {
            assert(after[j - 1].0.0@ == x);
        }
    }
    assert forall|x: Seq<char>| has_id(after, x) implies has_id(before, x) by {
        let k = choose|k: int| 0 <= k < after.len() && #[trigger] after[k].0.0@ == x;
        if k == after.len() - 1 {
            assert(before[i].0.0@ == x);
        } else if k < i {
            assert(before[k].0.0@ == x);
        } else {
            assert(before[k + 1].0.0@ == x);
        }
    }
}

/// How a failed controller command is described.
pub open spec fn command_error_text(e: ControllerCommandError) -> Seq<char> {
    match e {
        ControllerCommandError::Missing(id) => "'"@ + id.0@ + "' is not an active client"@,
        ControllerCommandError::AlreadyActive(id) => "'"@ + id.0@ + "' is already an active client"@,
        ControllerCommandError::Controller => "Control error"@,
        ControllerCommandError::Kill(m) => m@,
    }
}

/// The reply to a start (`starting`) or stop command for controller `id`.
pub open spec fn command_reply_text(
    starting: bool,
    id: Seq<char>,
    outcome: Result<(), ControllerCommandError>,
) -> Seq<char> {
    match outcome {
        Ok(()) => "Controller '"@ + id + (if starting {
            "' started"@
        } else {
            "' stopped"@
        }),
        Err(e) => (if starting {
            "Failed starting controller '"@
        } else {
            "Failed stopping controller '"@
        }) + id + "': "@ + command_error_text(e),
    }
}

/// Describes a failed controller command.
pub fn command_error_message(e: &ControllerCommandError) -> (r: String)
    ensures
        r@ == command_error_text(*e),
{
    let mut r = String::new();
    match e {
        ControllerCommandError::Missing(id) => {
            push_text(&mut r, "'");
            push_text(&mut r, id.as_str());
            push_text(&mut r, "' is not an active client");
        },
        ControllerCommandError::AlreadyActive(id) => {
            push_text(&mut r, "'");
            push_text(&mut r, id.as_str());
            push_text(&mut r, "' is already an active client");
        },
        ControllerCommandError::Controller => {
            push_text(&mut r, "Control error");
        },
        ControllerCommandError::Kill(m) => {
            push_text(&mut r, m.as_str());
        },
    }
    r
}

/// The reply to a start (`starting`) or stop command for controller `id`
/// that ended with `outcome`.
pub fn command_reply(starting: bool, id: &ClientId, outcome: &Result<(), ControllerCommandError>) -> (r:
    String)
    ensures
        r@ == command_reply_text(starting, id.0@, *outcome),
{
    let mut r = String::new();
    match outcome {
        Ok(()) => {
            push_text(&mut r, "Controller '");
            push_text(&mut r, id.as_str());
            if starting {
                push_text(&mut r, "' started");
            } else {
                push_text(&mut r, "' stopped");
            }
        },
        Err(e) => {
            if starting {
                push_text(&mut r, "Failed starting controller '");
            } else {
                push_text(&mut r, "Failed stopping controller '");
            }
            push_text(&mut r, id.as_str());
            push_text(&mut r, "': ");
            let m = command_error_message(e);
            push_text(&mut r, m.as_str());
        },
    }
    r
}

/// Command line of the supervisor program.
#[derive(Clone, Debug)]
pub enum Opt {
    /// Run the supervisor with the configuration file at `config_file`.
    Run { config_file: String },
}


/// The replies: a start or stop that succeeded is confirmed by name, and a
/// failed one names the controller and says why.
pub proof fn law_command_replies(id: Seq<char>, e: ControllerCommandError, c: ClientId, m: String)
    ensures
        command_reply_text(true, id, Ok(())) == "Controller '"@ + id + "' started"@,
        command_reply_text(false, id, Ok(())) == "Controller '"@ + id + "' stopped"@,
        command_reply_text(true, id, Err(e)) == "Failed starting controller '"@ + id + "': "@
            + command_error_text(e),
        command_reply_text(false, id, Err(e)) == "Failed stopping controller '"@ + id + "': "@
            + command_error_text(e),
        command_error_text(ControllerCommandError::Missing(c)) == "'"@ + c.0@
            + "' is not an active client"@,
        command_error_text(ControllerCommandError::AlreadyActive(c)) == "'"@ + c.0@
            + "' is already an active client"@,
        command_error_text(ControllerCommandError::Controller) == "Control error"@,
        command_error_text(ControllerCommandError::Kill(m)) == m@,
{
}

} // verus!
