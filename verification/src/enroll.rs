//! Enrollment of a host: the steps that set it up and the order in which
//! they are run.
//!
//! Enrollment waits on the outside world between decisions, so it is laid
//! out as a machine: [`HostBuilder::advance`] takes the phase reached and
//! the event that just happened, and answers with the next phase and the
//! action to perform. The caller performs the action and comes back with
//! its event until the action is [`Action::Finish`] or [`Action::Abort`].

use crate::command::{described, Command, CommandError, CommandErrorModel, CommandModel};
use crate::host::{Host, HostId, HostModel, HostState};
use crate::http::ErrorTrait;
use crate::settings::envoy_bin_path_of;
use crate::ssh::{
    committed_key_path_of, copy_command_of, global_key_path_of, identity_of,
    lemma_staged_key_is_never_the_identity, probe_command_of, remote_command_of,
    tmp_key_path_of, HostBuilder, HostBuilderModel, Site, SiteModel,
};
use crate::text::{concat2, concat3, decimal, decimal_string, join, joined};
use vstd::prelude::*;

verus! {

/// The five steps of enrollment, as they are named in errors.
#[derive(Debug, Clone, Copy, PartialEq, Eq, Structural)]
pub enum Step {
    Credential,
    OpenPort,
    StopPrior,
    Copy,
    Activate,
}

/// How far an enrollment has come: each phase but the first and the last
/// two waits for the event of the action that led into it.
#[derive(Debug, Clone, Copy, PartialEq, Eq, Structural)]
pub enum Phase {
    /// Nothing has happened yet.
    Start,
    /// The supplied key is being written to its staging path.
    Staging,
    /// The fallback key is being looked for.
    Locating,
    /// The staged key is being tried against the host.
    Probing,
    /// The staged key is being moved to its permanent path.
    Committing,
    /// The agent's port is being opened in the remote firewall.
    OpeningPort,
    /// A previously installed agent is being stopped.
    StoppingPrior,
    /// The agent binary is being copied.
    CopyingBinary,
    /// The service-unit descriptor is being copied.
    CopyingUnit,
    /// The remote service manager is reloading its units.
    Reloading,
    /// The agent service is being started.
    Starting,
    /// The agent service is being enabled at boot.
    Enabling,
    /// Every step succeeded.
    Done,
    /// A step failed; enrollment is over.
    Failed,
}

/// What went wrong with the key itself.
#[derive(Debug, Clone, Copy, PartialEq, Eq, Structural)]
pub enum CredentialFault {
    /// No key was supplied and there is no fallback key.
    NoGlobalKey,
    /// The supplied key could not be written to its staging path.
    Staging,
    /// The proven key could not be moved to its permanent path.
    Promotion,
}

/// Why an enrollment was given up.
#[derive(Debug)]
pub enum EnrollError {
    /// No usable key.
    Credential(CredentialFault),
    /// The probe with the staged key did not get through.
    Connectivity(CommandError),
    /// A setup command failed.
    Deployment { step: Step, error: CommandError },
    /// An event arrived that the phase was not waiting for.
    OutOfTurn,
}

/// What an [`EnrollError`] is, as plain values.
pub enum EnrollErrorModel {
    Credential(CredentialFault),
    Connectivity(CommandErrorModel),
    Deployment { step: Step, error: CommandErrorModel },
    OutOfTurn,
}

impl View for EnrollError {
    type V = EnrollErrorModel;

    open spec fn view(&self) -> EnrollErrorModel {
        match self {
            EnrollError::Credential(fault) => EnrollErrorModel::Credential(*fault),
            EnrollError::Connectivity(error) => EnrollErrorModel::Connectivity(error@),
            EnrollError::Deployment { step, error } => EnrollErrorModel::Deployment {
                step: *step,
                error: error@,
            },
            EnrollError::OutOfTurn => EnrollErrorModel::OutOfTurn,
        }
    }
}

/// What the caller is asked to do next.
#[derive(Debug)]
pub enum Action {
    /// Write `key` to the file `path`, replacing what is there.
    Stage { path: String, key: String },
    /// Find out whether the file `path` exists.
    Locate { path: String },
    /// Move the file `from` to `to` in one step.
    Promote { from: String, to: String },
    /// Run a command and wait for it.
    Run(Command),
    /// Enrollment succeeded: the host may be built.
    Finish,
    /// Enrollment failed.
    Abort(EnrollError),
}

/// What an [`Action`] is, as plain values.
pub enum ActionModel {
    Stage { path: Seq<char>, key: Seq<char> },
    Locate { path: Seq<char> },
    Promote { from: Seq<char>, to: Seq<char> },
    Run(CommandModel),
    Finish,
    Abort(EnrollErrorModel),
}

impl View for Action {
    type V = ActionModel;

    open spec fn view(&self) -> ActionModel {
        match self {
            Action::Stage { path, key } => ActionModel::Stage { path: path@, key: key@ },
            Action::Locate { path } => ActionModel::Locate { path: path@ },
            Action::Promote { from, to } => ActionModel::Promote { from: from@, to: to@ },
            Action::Run(command) => ActionModel::Run(command@),
            Action::Finish => ActionModel::Finish,
            Action::Abort(error) => ActionModel::Abort(error@),
        }
    }
}

/// What happened to the action asked for.
#[derive(Debug)]
pub enum Event {
    /// Enrollment is to begin.
    Begin,
    /// A file was written or moved (`true`), or could not be (`false`).
    Stored(bool),
    /// The file looked for exists (`true`) or does not (`false`).
    Located(bool),
    /// The command ended: its output, or its failure.
    Ran(Result<Vec<u8>, CommandError>),
}

/// What an [`Event`] is, as plain values. Of a command that succeeded
/// nothing more is kept: its output decides nothing.
pub enum EventModel {
    Begin,
    Stored(bool),
    Located(bool),
    Ran(Option<CommandErrorModel>),
}

impl View for Event {
    type V = EventModel;

    open spec fn view(&self) -> EventModel {
        match self {
            Event::Begin => EventModel::Begin,
            Event::Stored(ok) => EventModel::Stored(*ok),
            Event::Located(found) => EventModel::Located(*found),
            Event::Ran(Ok(_)) => EventModel::Ran(None),
            Event::Ran(Err(error)) => EventModel::Ran(Some(error@)),
        }
    }
}

/// The remote firewall command that lets the agent's port in.
pub open spec fn open_port_line(agent_port: u16) -> Seq<char> {
    "firewall-cmd --add-port "@ + decimal(agent_port as nat) + "/tcp"@
}

/// Whether a phase waits for a setup command on the enrolled host.
pub open spec fn is_deployment(phase: Phase) -> bool {
    phase == Phase::OpeningPort || phase == Phase::StoppingPrior || phase == Phase::CopyingBinary
        || phase == Phase::CopyingUnit || phase == Phase::Reloading || phase == Phase::Starting
        || phase == Phase::Enabling
}

/// The command that a deployment phase waits for.
pub open spec fn command_of(b: HostBuilderModel, site: SiteModel, phase: Phase) -> CommandModel
    recommends
        is_deployment(phase),
{
    let root = site.data_root;
    match phase {
        Phase::OpeningPort => remote_command_of(root, b, open_port_line(site.agent_port)),
        Phase::StoppingPrior => remote_command_of(root, b, "systemctl stop av1-envoy || true"@),
        Phase::CopyingBinary => copy_command_of(
            root,
            b,
            envoy_bin_path_of(root),
            "/usr/local/bin/av1-envoy"@,
        ),
        Phase::CopyingUnit => copy_command_of(
            root,
            b,
            joined(site.config_dir, "av1-envoy.service"@),
            "/etc/systemd/system/av1-envoy.service"@,
        ),
        Phase::Reloading => remote_command_of(root, b, "systemctl daemon-reload"@),
        Phase::Starting => remote_command_of(root, b, "systemctl start av1-envoy.service"@),
        _ => remote_command_of(root, b, "systemctl enable av1-envoy.service"@),
    }
}

/// The step that a deployment phase belongs to.
pub open spec fn step_of(phase: Phase) -> Step
    recommends
        is_deployment(phase),
{
    match phase {
        Phase::OpeningPort => Step::OpenPort,
        Phase::StoppingPrior => Step::StopPrior,
        Phase::CopyingBinary => Step::Copy,
        Phase::CopyingUnit => Step::Copy,
        _ => Step::Activate,
    }
}

/// The phase that follows a deployment phase when enrollment goes on.
pub open spec fn successor(phase: Phase) -> Phase
    recommends
        is_deployment(phase),
{
    match phase {
        Phase::OpeningPort => Phase::StoppingPrior,
        Phase::StoppingPrior => Phase::CopyingBinary,
        Phase::CopyingBinary => Phase::CopyingUnit,
        Phase::CopyingUnit => Phase::Reloading,
        Phase::Reloading => Phase::Starting,
        Phase::Starting => Phase::Enabling,
        _ => Phase::Done,
    }
}

/// Entering `phase`: the phase together with the action it waits for.
pub open spec fn entering(b: HostBuilderModel, site: SiteModel, phase: Phase) -> (
    Phase,
    ActionModel,
)
    recommends
        is_deployment(phase) || phase == Phase::Done,
{
    if phase == Phase::Done {
        (Phase::Done, ActionModel::Finish)
    } else {
        (phase, ActionModel::Run(command_of(b, site, phase)))
    }
}

/// Giving up with `error`.
pub open spec fn failing(error: EnrollErrorModel) -> (Phase, ActionModel) {
    (Phase::Failed, ActionModel::Abort(error))
}

/// The whole of enrollment as a transition table.
///
/// * A supplied key is staged, probed and, if the probe gets through,
///   moved to its permanent path; only then does setup begin. A failed
///   probe ends enrollment and leaves the staged key where it is.
/// * Without a supplied key the fallback key must exist; it is used as it
///   is and not probed.
/// * Setup opens the port, stops a prior agent, copies binary and unit,
///   reloads, starts and enables. The first failure ends enrollment, with
///   the step and the command's error; nothing is rolled back. Only the
///   stop of a prior agent may fail without consequence.
/// * An event that the phase was not waiting for ends enrollment.
pub open spec fn step(b: HostBuilderModel, site: SiteModel, phase: Phase, event: EventModel) -> (
    Phase,
    ActionModel,
) {
    let root = site.data_root;
    let staged = tmp_key_path_of(root, b.ip);
    match (phase, event) {
        (Phase::Start, EventModel::Begin) => match b.key {
            Some(key) => (Phase::Staging, ActionModel::Stage { path: staged, key }),
            None => (Phase::Locating, ActionModel::Locate { path: global_key_path_of(root) }),
        },
        (Phase::Staging, EventModel::Stored(ok)) => if ok {
            (Phase::Probing, ActionModel::Run(probe_command_of(staged, b)))
        } else {
            failing(EnrollErrorModel::Credential(CredentialFault::Staging))
        },
        (Phase::Locating, EventModel::Located(found)) => if found {
            entering(b, site, Phase::OpeningPort)
        } else {
            failing(EnrollErrorModel::Credential(CredentialFault::NoGlobalKey))
        },
        (Phase::Probing, EventModel::Ran(outcome)) => match outcome {
            None => (
                Phase::Committing,
                ActionModel::Promote { from: staged, to: committed_key_path_of(root, b.ip) },
            ),
            Some(error) => failing(EnrollErrorModel::Connectivity(error)),
        },
        (Phase::Committing, EventModel::Stored(ok)) => if ok {
            entering(b, site, Phase::OpeningPort)
        } else {
            failing(EnrollErrorModel::Credential(CredentialFault::Promotion))
        },
        (_, EventModel::Ran(outcome)) => if is_deployment(phase) {
            match outcome {
                Some(error) => if phase == Phase::StoppingPrior {
                    entering(b, site, successor(phase))
                } else {
                    failing(EnrollErrorModel::Deployment { step: step_of(phase), error })
                },
                None => entering(b, site, successor(phase)),
            }
        } else {
            failing(EnrollErrorModel::OutOfTurn)
        },
        _ => failing(EnrollErrorModel::OutOfTurn),
    }
}

/// The name of a step in messages.
pub open spec fn step_name(step: Step) -> Seq<char> {
    match step {
        Step::Credential => "credential"@,
        Step::OpenPort => "open-port"@,
        Step::StopPrior => "stop-prior"@,
        Step::Copy => "copy"@,
        Step::Activate => "activate"@,
    }
}

/// How an enrollment error reads.
pub open spec fn enroll_error_text(error: EnrollErrorModel) -> Seq<char> {
    match error {
        EnrollErrorModel::Credential(CredentialFault::NoGlobalKey) => "no global key"@,
        EnrollErrorModel::Credential(CredentialFault::Staging) => "cannot write key to temp file"@,
        EnrollErrorModel::Credential(CredentialFault::Promotion) => "cannot move key into place"@,
        EnrollErrorModel::Connectivity(e) => "ssh connection failed: "@ + described(e),
        EnrollErrorModel::Deployment { step, error } => "deployment failed at step "@ + step_name(
            step,
        ) + ": "@ + described(error),
        EnrollErrorModel::OutOfTurn => "unexpected event"@,
    }
}

impl Step {
    /// The name of this step in messages.
    pub fn name(&self) -> (s: &'static str)
        ensures
            s@ == step_name(*self),
    {
        match self {
            Step::Credential => "credential",
            Step::OpenPort => "open-port",
            Step::StopPrior => "stop-prior",
            Step::Copy => "copy",
            Step::Activate => "activate",
        }
    }
}

impl ErrorTrait for EnrollError {
    open spec fn text(&self) -> Seq<char> {
        enroll_error_text(self@)
    }

    fn message(&self) -> (s: String) {
        match self {
            EnrollError::Credential(CredentialFault::NoGlobalKey) => String::from_str(
                "no global key",
            ),
            EnrollError::Credential(CredentialFault::Staging) => String::from_str(
                "cannot write key to temp file",
            ),
            EnrollError::Credential(CredentialFault::Promotion) => String::from_str(
                "cannot move key into place",
            ),
            EnrollError::Connectivity(e) => concat2(
                "ssh connection failed: ",
                e.describe().as_str(),
            ),
            EnrollError::Deployment { step, error } => {
                let mut s = String::from_str("deployment failed at step ");
                s.append(step.name());
                s.append(": ");
                s.append(error.describe().as_str());
                s
            },
            EnrollError::OutOfTurn => String::from_str("unexpected event"),
        }
    }
}

fn out_of_turn() -> (res: (Phase, Action))
    ensures
        (res.0, res.1@) == failing(EnrollErrorModel::OutOfTurn),
{
    (Phase::Failed, Action::Abort(EnrollError::OutOfTurn))
}

fn no_credential(fault: CredentialFault) -> (res: (Phase, Action))
    ensures
        (res.0, res.1@) == failing(EnrollErrorModel::Credential(fault)),
{
    (Phase::Failed, Action::Abort(EnrollError::Credential(fault)))
}

impl Phase {
    /// Whether this phase waits for a setup command.
    pub fn is_deployment(&self) -> (b: bool)
        ensures
            b == is_deployment(*self),
    {
        match self {
            Phase::OpeningPort
            | Phase::StoppingPrior
            | Phase::CopyingBinary
            | Phase::CopyingUnit
            | Phase::Reloading
            | Phase::Starting
            | Phase::Enabling => true,
            _ => false,
        }
    }

    fn step(&self) -> (label: Step)
        requires
            is_deployment(*self),
        ensures
            label == step_of(*self),
    {
        match self {
            Phase::OpeningPort => Step::OpenPort,
            Phase::StoppingPrior => Step::StopPrior,
            Phase::CopyingBinary => Step::Copy,
            Phase::CopyingUnit => Step::Copy,
            _ => Step::Activate,
        }
    }

    fn successor(&self) -> (next: Phase)
        requires
            is_deployment(*self),
        ensures
            next == successor(*self),
            is_deployment(next) || next == Phase::Done,
    {
        match self {
            Phase::OpeningPort => Phase::StoppingPrior,
            Phase::StoppingPrior => Phase::CopyingBinary,
            Phase::CopyingBinary => Phase::CopyingUnit,
            Phase::CopyingUnit => Phase::Reloading,
            Phase::Reloading => Phase::Starting,
            Phase::Starting => Phase::Enabling,
            _ => Phase::Done,
        }
    }
}

impl HostBuilder {
    /// The setup command that a deployment phase waits for; none for any
    /// other phase.
    pub fn send_envoy(&self, site: &Site, phase: Phase) -> (command: Option<Command>)
        ensures
            is_deployment(phase) ==> command is Some && command->Some_0@ == command_of(
                self@,
                site@,
                phase,
            ),
            !is_deployment(phase) ==> command is None,
    {
        if phase.is_deployment() {
            Some(self.setup_command(site, phase))
        } else {
            None
        }
    }

    fn setup_command(&self, site: &Site, phase: Phase) -> (command: Command)
        requires
            is_deployment(phase),
        ensures
            command@ == command_of(self@, site@, phase),
    {
        match phase {
            Phase::OpeningPort => {
                let port = decimal_string(site.agent_port as u64);
                let line = concat3("firewall-cmd --add-port ", port.as_str(), "/tcp");
                self.run_ssh_cmd(site, line.as_str())
            },
            Phase::StoppingPrior => self.run_ssh_cmd(site, "systemctl stop av1-envoy || true"),
            Phase::CopyingBinary => {
                let binary = site.data_dir.envoy_bin_path();
                self.scp(site, binary.as_str(), "/usr/local/bin/av1-envoy")
            },
            Phase::CopyingUnit => {
                let unit = join(site.config_dir.as_str(), "av1-envoy.service");
                self.scp(site, unit.as_str(), "/etc/systemd/system/av1-envoy.service")
            },
            Phase::Reloading => self.run_ssh_cmd(site, "systemctl daemon-reload"),
            Phase::Starting => self.run_ssh_cmd(site, "systemctl start av1-envoy.service"),
            _ => self.run_ssh_cmd(site, "systemctl enable av1-envoy.service"),
        }
    }

    fn enter(&self, site: &Site, phase: Phase) -> (res: (Phase, Action))
        requires
            is_deployment(phase) || phase == Phase::Done,
        ensures
            (res.0, res.1@) == entering(self@, site@, phase),
    {
        match phase {
            Phase::Done => (Phase::Done, Action::Finish),
            _ => (phase, Action::Run(self.setup_command(site, phase))),
        }
    }

    /// One decision of enrollment: given the phase reached and the event
    /// that just happened, the next phase and what to do now. See
    /// [`step`] for the table.
    pub fn advance(&self, site: &Site, phase: Phase, event: Event) -> (res: (Phase, Action))
        ensures
            (res.0, res.1@) == step(self@, site@, phase, event@),
    {
        match phase {
            Phase::Start => match event {
                Event::Begin => match &self.key {
                    Some(key) => (
                        Phase::Staging,
                        Action::Stage { path: self.ssh_key_tmp_path(site), key: key.clone() },
                    ),
                    None => (Phase::Locating, Action::Locate { path: site.ssh_global_key_path() }),
                },
                _ => out_of_turn(),
            },
            Phase::Staging => match event {
                Event::Stored(true) => {
                    let staged = self.ssh_key_tmp_path(site);
                    (Phase::Probing, Action::Run(self.test_ssh_conn(staged.as_str())))
                },
                Event::Stored(false) => no_credential(CredentialFault::Staging),
                _ => out_of_turn(),
            },
            Phase::Locating => match event {
                Event::Located(true) => self.enter(site, Phase::OpeningPort),
                Event::Located(false) => no_credential(CredentialFault::NoGlobalKey),
                _ => out_of_turn(),
            },
            Phase::Probing => match event {
                Event::Ran(Ok(_)) => (
                    Phase::Committing,
                    Action::Promote {
                        from: self.ssh_key_tmp_path(site),
                        to: self.ssh_committed_key_path(site),
                    },
                ),
                Event::Ran(Err(error)) => (
                    Phase::Failed,
                    Action::Abort(EnrollError::Connectivity(error)),
                ),
                _ => out_of_turn(),
            },
            Phase::Committing => match event {
                Event::Stored(true) => self.enter(site, Phase::OpeningPort),
                Event::Stored(false) => no_credential(CredentialFault::Promotion),
                _ => out_of_turn(),
            },
            Phase::Done | Phase::Failed => out_of_turn(),
            _ => match event {
                Event::Ran(Ok(_)) => self.enter(site, phase.successor()),
                Event::Ran(Err(error)) => match phase {
                    Phase::StoppingPrior => self.enter(site, phase.successor()),
                    _ => (
                        Phase::Failed,
                        Action::Abort(EnrollError::Deployment { step: phase.step(), error }),
                    ),
                },
                _ => out_of_turn(),
            },
        }
    }

    /// The enrolled host: it exists only when enrollment has reached
    /// [`Phase::Done`], and then it is `Running` under the identifier
    /// given, with the name and address it was enrolled with.
    pub fn build(self, phase: Phase, id: HostId) -> (host: Option<Host>)
        ensures
            phase == Phase::Done ==> host is Some && host->Some_0@ == (HostModel {
                id,
                name: self@.name,
                ip: self@.ip,
                state: HostState::Running,
            }),
            phase != Phase::Done ==> host is None,
    {
        match phase {
            Phase::Done => Some(
                Host { id, name: self.name, ip: self.ip, state: HostState::Running },
            ),
            _ => None,
        }
    }
}

/// Stopping a prior agent cannot fail enrollment: whether the stop
/// succeeded or not, the binary is copied next.
pub proof fn lemma_prior_agent_need_not_exist(
    b: HostBuilderModel,
    site: SiteModel,
    error: CommandErrorModel,
)
    ensures
        step(b, site, Phase::StoppingPrior, EventModel::Ran(Some(error))) == step(
            b,
            site,
            Phase::StoppingPrior,
            EventModel::Ran(None),
        ),
        step(b, site, Phase::StoppingPrior, EventModel::Ran(Some(error))) == (
            Phase::CopyingBinary,
            ActionModel::Run(command_of(b, site, Phase::CopyingBinary)),
        ),
{
}

/// Any other setup command that fails ends enrollment at once, with its
/// step and its error.
pub proof fn lemma_first_failure_aborts(
    b: HostBuilderModel,
    site: SiteModel,
    phase: Phase,
    error: CommandErrorModel,
)
    requires
        is_deployment(phase),
        phase != Phase::StoppingPrior,
    ensures
        step(b, site, phase, EventModel::Ran(Some(error))) == failing(
            EnrollErrorModel::Deployment { step: step_of(phase), error },
        ),
{
}

/// Without a key of its own and without a fallback key, enrollment ends
/// with a credential error before any command is asked for.
pub proof fn lemma_no_key_no_command(b: HostBuilderModel, site: SiteModel)
    requires
        b.key is None,
    ensures
        step(b, site, Phase::Start, EventModel::Begin) == (
            Phase::Locating,
            ActionModel::Locate { path: global_key_path_of(site.data_root) },
        ),
        step(b, site, Phase::Locating, EventModel::Located(false)) == failing(
            EnrollErrorModel::Credential(CredentialFault::NoGlobalKey),
        ),
{
}

/// The argument that a setup command gives to `-i`.
pub open spec fn identity_argument(command: CommandModel) -> Seq<char> {
    if command.program == "scp"@ {
        command.args[2]
    } else {
        command.args[1]
    }
}

/// Every setup command authenticates with the permanent key (or the
/// fallback), which is a file other than the staged key; and a key
/// reaches its permanent path only by the move that follows a successful
/// probe.
pub proof fn lemma_setup_uses_committed_key(b: HostBuilderModel, site: SiteModel, phase: Phase)
    requires
        is_deployment(phase),
    ensures
        identity_argument(command_of(b, site, phase)) == identity_of(site.data_root, b),
        identity_argument(command_of(b, site, phase)) != tmp_key_path_of(site.data_root, b.ip),
        step(b, site, Phase::Probing, EventModel::Ran(None)) == (
            Phase::Committing,
            ActionModel::Promote {
                from: tmp_key_path_of(site.data_root, b.ip),
                to: committed_key_path_of(site.data_root, b.ip),
            },
        ),
        forall|error: CommandErrorModel| #[trigger]
            step(b, site, Phase::Probing, EventModel::Ran(Some(error))) == failing(
                EnrollErrorModel::Connectivity(error),
            ),
{
    reveal_strlit("scp");
    reveal_strlit("ssh");
    assert("scp"@[1] != "ssh"@[1]);
    lemma_staged_key_is_never_the_identity(site.data_root, b);
}

/// The phase component of [`step`] by itself: where enrollment goes from
/// `phase` on `event`, for a host with (`has_key`) or without a key of its
/// own.
pub open spec fn next_phase(has_key: bool, phase: Phase, event: EventModel) -> Phase {
    match (phase, event) {
        (Phase::Start, EventModel::Begin) => if has_key {
            Phase::Staging
        } else {
            Phase::Locating
        },
        (Phase::Staging, EventModel::Stored(true)) => Phase::Probing,
        (Phase::Locating, EventModel::Located(true)) => Phase::OpeningPort,
        (Phase::Probing, EventModel::Ran(None)) => Phase::Committing,
        (Phase::Committing, EventModel::Stored(true)) => Phase::OpeningPort,
        (_, EventModel::Ran(outcome)) => if is_deployment(phase) && (outcome is None || phase
            == Phase::StoppingPrior) {
            successor(phase)
        } else {
            Phase::Failed
        },
        _ => Phase::Failed,
    }
}

/// [`next_phase`] is the phase that [`step`] moves to, and the action
/// fits the phase: enrollment has failed exactly when it is given up, it
/// is done exactly when the caller is told to finish, and once it is over
/// it stays over.
pub proof fn lemma_step_phase(b: HostBuilderModel, site: SiteModel, phase: Phase, event: EventModel)
    ensures
        step(b, site, phase, event).0 == next_phase(b.key is Some, phase, event),
        step(b, site, phase, event).0 == Phase::Failed <==> step(b, site, phase, event).1 is Abort,
        step(b, site, phase, event).0 == Phase::Done <==> step(b, site, phase, event).1 is Finish,
        phase == Phase::Done || phase == Phase::Failed ==> step(b, site, phase, event)
            == failing(EnrollErrorModel::OutOfTurn),
{
}

/// The phase reached from the start after the given events, in order.
pub open spec fn phase_after(has_key: bool, events: Seq<EventModel>) -> Phase
    decreases events.len(),
{
    if events.len() == 0 {
        Phase::Start
    } else {
        next_phase(has_key, phase_after(has_key, events.drop_last()), events.last())
    }
}

/// An event that reports success.
pub open spec fn favourable(event: EventModel) -> bool {
    event == EventModel::Begin || event == EventModel::Stored(true) || event
        == EventModel::Located(true) || event == EventModel::Ran(None)
}

/// The number of events that lead from the start to `phase` when nothing
/// fails, for a host with (`has_key`) or without a key of its own.
pub open spec fn distance(has_key: bool, phase: Phase) -> nat {
    let lead: nat = if has_key {
        4
    } else {
        2
    };
    match phase {
        Phase::Start => 0,
        Phase::Staging => 1,
        Phase::Locating => 1,
        Phase::Probing => 2,
        Phase::Committing => 3,
        Phase::OpeningPort => lead,
        Phase::StoppingPrior => lead + 1,
        Phase::CopyingBinary => lead + 2,
        Phase::CopyingUnit => lead + 3,
        Phase::Reloading => lead + 4,
        Phase::Starting => lead + 5,
        Phase::Enabling => lead + 6,
        Phase::Done => lead + 7,
        Phase::Failed => 0,
    }
}

/// Whether `phase` lies on the way of a host with or without a key of its
/// own.
pub open spec fn on_the_way(has_key: bool, phase: Phase) -> bool {
    if has_key {
        phase != Phase::Locating
    } else {
        phase != Phase::Staging && phase != Phase::Probing && phase != Phase::Committing
    }
}

/// Every event so far reported success, but for the stop of a prior
/// agent, which may have reported anything.
pub open spec fn nothing_failed(has_key: bool, events: Seq<EventModel>) -> bool {
    forall|i: int|
        0 <= i < events.len() ==> favourable(#[trigger] events[i]) || (phase_after(
            has_key,
            events.take(i),
        ) == Phase::StoppingPrior && events[i] is Ran)
}

/// One transition that does not fail starts from a phase that has not
/// failed, goes one event further on the same way, and was caused by an
/// event that reported success or by the stop of a prior agent.
pub proof fn lemma_one_step_further(has_key: bool, phase: Phase, event: EventModel)
    requires
        next_phase(has_key, phase, event) != Phase::Failed,
    ensures
        phase != Phase::Failed,
        phase != Phase::Done,
        on_the_way(has_key, phase) ==> on_the_way(has_key, next_phase(has_key, phase, event))
            && distance(has_key, next_phase(has_key, phase, event)) == distance(has_key, phase)
            + 1,
        favourable(event) || (phase == Phase::StoppingPrior && event is Ran),
{
}

/// As long as enrollment has not failed, it is exactly as far as the
/// number of events says, on the way that fits the host, and nothing has
/// failed but, possibly, the stop of a prior agent.
pub proof fn lemma_progress(has_key: bool, events: Seq<EventModel>)
    requires
        phase_after(has_key, events) != Phase::Failed,
    ensures
        distance(has_key, phase_after(has_key, events)) == events.len(),
        on_the_way(has_key, phase_after(has_key, events)),
        nothing_failed(has_key, events),
    decreases events.len(),
{
    if events.len() > 0 {
        let before = events.drop_last();
        let reached = phase_after(has_key, before);
        lemma_one_step_further(has_key, reached, events.last());
        lemma_progress(has_key, before);
        assert forall|i: int| 0 <= i < events.len() implies favourable(#[trigger] events[i]) || (
        phase_after(has_key, events.take(i)) == Phase::StoppingPrior && events[i] is Ran) by {
            if i < before.len() {
                assert(before.take(i) =~= events.take(i));
                assert(before[i] == events[i]);
            } else {
                assert(events.take(i) =~= before);
            }
        }
    }
}

/// A host comes out of enrollment only if every step succeeded: the last
/// phase is reached after exactly eleven events for a host with a key of
/// its own (nine with the fallback key), each of which reported success,
/// but for the stop of a prior agent.
pub proof fn lemma_done_means_every_step_succeeded(has_key: bool, events: Seq<EventModel>)
    requires
        phase_after(has_key, events) == Phase::Done,
    ensures
        events.len() == (if has_key {
            11nat
        } else {
            9nat
        }),
        nothing_failed(has_key, events),
{
    lemma_progress(has_key, events);
}

/// One more event takes enrollment one transition further.
pub proof fn lemma_phase_after_push(has_key: bool, events: Seq<EventModel>, event: EventModel)
    ensures
        phase_after(has_key, events.push(event)) == next_phase(
            has_key,
            phase_after(has_key, events),
            event,
        ),
{
    assert(events.push(event).drop_last() =~= events);
}

/// The events of an enrollment in which everything goes well: the key is
/// staged, proved and committed (or the fallback key is found), and each
/// of the seven setup commands succeeds.
pub open spec fn smooth_run(has_key: bool) -> Seq<EventModel> {
    let ran = EventModel::Ran(None);
    let credential = if has_key {
        seq![EventModel::Begin, EventModel::Stored(true), ran, EventModel::Stored(true)]
    } else {
        seq![EventModel::Begin, EventModel::Located(true)]
    };
    credential.push(ran).push(ran).push(ran).push(ran).push(ran).push(ran).push(ran)
}

/// Success is owed: where every step succeeds, enrollment reaches its last
/// phase.
pub proof fn lemma_smooth_run_is_done(has_key: bool)
    ensures
        phase_after(has_key, smooth_run(has_key)) == Phase::Done,
{
    let ran = EventModel::Ran(None);
    let none = Seq::<EventModel>::empty();
    let begin = none.push(EventModel::Begin);
    lemma_phase_after_push(has_key, none, EventModel::Begin);
    let credential = if has_key {
        let staged = begin.push(EventModel::Stored(true));
        let proved = staged.push(ran);
        let committed = proved.push(EventModel::Stored(true));
        lemma_phase_after_push(has_key, begin, EventModel::Stored(true));
        lemma_phase_after_push(has_key, staged, ran);
        lemma_phase_after_push(has_key, proved, EventModel::Stored(true));
        assert(committed =~= seq![
            EventModel::Begin,
            EventModel::Stored(true),
            ran,
            EventModel::Stored(true),
        ]);
        committed
    } else {
        let found = begin.push(EventModel::Located(true));
        lemma_phase_after_push(has_key, begin, EventModel::Located(true));
        assert(found =~= seq![EventModel::Begin, EventModel::Located(true)]);
        found
    };
    assert(phase_after(has_key, credential) == Phase::OpeningPort);
    let e1 = credential.push(ran);
    let e2 = e1.push(ran);
    let e3 = e2.push(ran);
    let e4 = e3.push(ran);
    let e5 = e4.push(ran);
    let e6 = e5.push(ran);
    lemma_phase_after_push(has_key, credential, ran);
    lemma_phase_after_push(has_key, e1, ran);
    lemma_phase_after_push(has_key, e2, ran);
    lemma_phase_after_push(has_key, e3, ran);
    lemma_phase_after_push(has_key, e4, ran);
    lemma_phase_after_push(has_key, e5, ran);
    lemma_phase_after_push(has_key, e6, ran);
}

} // verus!
