//! Verb dispatch, run plans, and the failure policy of a run.
//!
//! A command-line verb is resolved to a plan: a short sequence of
//! actions (engine commands, the fixed readiness wait, the test-process
//! invocation).  The driver performs the actions in order and reports
//! each one's success; the step functions here decide which actions
//! still run after a failure and what the process exit code becomes.
//! Removal failures are swallowed (the instance may legitimately not
//! exist), a failed start or test invocation turns the exit code
//! non-zero, and teardown actions run whatever happened before them, so
//! a composed run never leaks its instance.

use vstd::prelude::*;
use vstd::string::*;

use crate::lifecycle::EngineCmd;
use crate::lifecycle::is_remove_cmd;
use crate::lifecycle::is_run_cmd;
use crate::lifecycle::provision_plan;
use crate::lifecycle::teardown_plan;
use crate::version::ServerVersion;

verus! {

/// The fixed readiness wait, long enough to cover worst-case server
/// cold-start.
pub const READINESS_WAIT_SECONDS: u64 = 25;

/// A command-line verb.
#[derive(Clone, Copy, PartialEq, Eq, Structural, Debug)]
pub enum Verb {
    /// Provision only; runs no scenario.
    Container,
    /// Run the test process against whatever instance is reachable.
    Test,
    /// Provision, run the tests, and tear down unconditionally.
    Local,
    /// Tear down only.
    Stop,
}

/// The verb a command-line token resolves to; `None` for an unknown
/// token, on which the process must exit non-zero at once.
pub open spec fn spec_parse_verb(s: Seq<char>) -> Option<Verb> {
    if s == "container"@ {
        Some(Verb::Container)
    } else if s == "test"@ {
        Some(Verb::Test)
    } else if s == "local"@ {
        Some(Verb::Local)
    } else if s == "stop"@ {
        Some(Verb::Stop)
    } else {
        None
    }
}

/// Resolves a command-line token to a verb.
pub fn parse_verb(s: &str) -> (r: Option<Verb>)
    ensures
        r == spec_parse_verb(s@),
{
    let owned = s.to_owned();
    if owned == String::from_str("container") {
        Some(Verb::Container)
    } else if owned == String::from_str("test") {
        Some(Verb::Test)
    } else if owned == String::from_str("local") {
        Some(Verb::Local)
    } else if owned == String::from_str("stop") {
        Some(Verb::Stop)
    } else {
        None
    }
}

/// One step of a run, performed by the unverified driver.
pub enum Action {
    /// Invoke the container engine.
    Engine { cmd: EngineCmd },
    /// Block for the fixed readiness wait.
    WaitReady { seconds: u64 },
    /// Invoke the external test process with this connection string.
    RunTests { connection_string: String },
}

/// The provisioning prefix of a plan: the provision plan's removal and
/// start, then the readiness wait.  The wait stands after the start and
/// before anything else, so no scenario runs against an instance that
/// is still starting.
pub open spec fn is_provision_actions(
    p: Seq<Action>,
    version: ServerVersion,
    pw: Seq<char>,
) -> bool {
    &&& p.len() == 3
    &&& p[0] matches Action::Engine { cmd } && is_remove_cmd(cmd, version)
    &&& p[1] matches Action::Engine { cmd } && is_run_cmd(cmd, version, pw)
    &&& p[2] == (Action::WaitReady { seconds: READINESS_WAIT_SECONDS })
}

/// A teardown action for the version.
pub open spec fn is_teardown_action(a: Action, version: ServerVersion) -> bool {
    a matches Action::Engine { cmd } && is_remove_cmd(cmd, version)
}

/// A test-process invocation with the given connection string.
pub open spec fn is_run_tests_action(a: Action, conn: Seq<char>) -> bool {
    a matches Action::RunTests { connection_string } && connection_string@ == conn
}

/// The plan a verb resolves to.
pub open spec fn is_plan_for(
    p: Seq<Action>,
    verb: Verb,
    version: ServerVersion,
    pw: Seq<char>,
    conn: Seq<char>,
) -> bool {
    match verb {
        Verb::Container => is_provision_actions(p, version, pw),
        Verb::Test => p.len() == 1 && is_run_tests_action(p[0], conn),
        Verb::Local => {
            &&& p.len() == 5
            &&& is_provision_actions(p.subrange(0, 3), version, pw)
            &&& is_run_tests_action(p[3], conn)
            &&& is_teardown_action(p[4], version)
        },
        Verb::Stop => p.len() == 1 && is_teardown_action(p[0], version),
    }
}

/// Builds the provisioning prefix: remove any stale instance, start a
/// fresh one, wait for readiness.
fn provision_actions(version: ServerVersion, sa_password: String) -> (r: Vec<Action>)
    ensures
        is_provision_actions(r@, version, sa_password@),
{
    let mut cmds = provision_plan(version, sa_password);
    let run_cmd = cmds.pop().unwrap();
    let remove_cmd = cmds.pop().unwrap();
    let mut p: Vec<Action> = Vec::new();
    p.push(Action::Engine { cmd: remove_cmd });
    p.push(Action::Engine { cmd: run_cmd });
    p.push(Action::WaitReady { seconds: READINESS_WAIT_SECONDS });
    p
}

/// Builds the plan for a verb.  The `local` plan composes provision,
/// test invocation and teardown, with the teardown last so it runs
/// after the tests whatever their outcome.
pub fn plan_for(
    verb: Verb,
    version: ServerVersion,
    sa_password: String,
    connection_string: String,
) -> (r: Vec<Action>)
    ensures
        is_plan_for(r@, verb, version, sa_password@, connection_string@),
{
    match verb {
        Verb::Container => provision_actions(version, sa_password),
        Verb::Test => {
            let mut p: Vec<Action> = Vec::new();
            p.push(Action::RunTests { connection_string });
            p
        },
        Verb::Local => {
            let mut p = provision_actions(version, sa_password);
            let ghost prefix = p@;
            p.push(Action::RunTests { connection_string });
            let mut removal = teardown_plan(version);
            let remove_cmd = removal.pop().unwrap();
            p.push(Action::Engine { cmd: remove_cmd });
            proof {
                assert(p@.subrange(0, 3) =~= prefix);
            }
            p
        },
        Verb::Stop => {
            let mut removal = teardown_plan(version);
            let remove_cmd = removal.pop().unwrap();
            let mut p: Vec<Action> = Vec::new();
            p.push(Action::Engine { cmd: remove_cmd });
            p
        },
    }
}

/// The running status of a plan's execution: its pending process exit
/// code, `0` while nothing has failed.
#[derive(Clone, Copy, PartialEq, Eq, Structural, Debug)]
pub struct RunStatus {
    pub exit_code: u8,
}

/// The status a run starts in.
pub fn initial_status() -> (r: RunStatus)
    ensures
        r.exit_code == 0,
{
    RunStatus { exit_code: 0 }
}

/// An action that tears an instance down: a forced removal.  Such
/// actions are failure-tolerant and run in every status.
pub open spec fn spec_is_teardown(a: Action) -> bool {
    a matches Action::Engine { cmd: EngineCmd::RemoveForced { .. } }
}

/// Whether an action still runs in the given status: everything runs
/// while nothing has failed, and teardown actions run unconditionally,
/// so a failed run still releases its instance.
pub open spec fn spec_should_run(st: RunStatus, a: Action) -> bool {
    st.exit_code == 0 || spec_is_teardown(a)
}

/// Decides whether an action still runs in the given status.
pub fn should_run(st: &RunStatus, a: &Action) -> (r: bool)
    ensures
        r == spec_should_run(*st, *a),
{
    st.exit_code == 0 || matches!(a, Action::Engine { cmd: EngineCmd::RemoveForced { .. } })
}

/// The status after an action reported its success: a failed removal
/// is swallowed (the instance may legitimately not exist), any other
/// failure makes the pending exit code `1`, and success changes
/// nothing.
pub open spec fn spec_after_result(st: RunStatus, a: Action, success: bool) -> RunStatus {
    if success || spec_is_teardown(a) {
        st
    } else {
        RunStatus { exit_code: 1 }
    }
}

/// Records an action's reported success in the run status.
pub fn after_result(st: RunStatus, a: &Action, success: bool) -> (r: RunStatus)
    ensures
        r == spec_after_result(st, *a, success),
{
    if success || matches!(a, Action::Engine { cmd: EngineCmd::RemoveForced { .. } }) {
        st
    } else {
        RunStatus { exit_code: 1 }
    }
}

/// Teardown is failure-tolerant: in every status a teardown action
/// still runs, and neither its failure nor its success changes the
/// pending exit code, so tearing down an absent instance never fails
/// the run.
pub proof fn lemma_teardown_tolerant(st: RunStatus, a: Action, success: bool)
    requires
        spec_is_teardown(a),
    ensures
        spec_should_run(st, a),
        spec_after_result(st, a, success) == st,
{
}

/// The `local` plan never leaks its instance: its last action is a
/// teardown for the version, and that action runs in every status the
/// earlier actions can leave behind.
pub proof fn lemma_local_releases_instance(
    p: Seq<Action>,
    version: ServerVersion,
    pw: Seq<char>,
    conn: Seq<char>,
    st: RunStatus,
)
    requires
        is_plan_for(p, Verb::Local, version, pw, conn),
    ensures
        is_teardown_action(p[p.len() - 1], version),
        spec_is_teardown(p[p.len() - 1]),
        spec_should_run(st, p[p.len() - 1]),
{
}

/// No scenario runs against an instance that is still starting: in the
/// composed plan the readiness wait stands strictly between the
/// instance start and the test invocation, and the tests run only
/// while nothing before them has failed.
pub proof fn lemma_tests_wait_for_readiness(
    p: Seq<Action>,
    version: ServerVersion,
    pw: Seq<char>,
    conn: Seq<char>,
)
    requires
        is_plan_for(p, Verb::Local, version, pw, conn),
    ensures
        p[1] matches Action::Engine { cmd } && is_run_cmd(cmd, version, pw),
        p[2] == (Action::WaitReady { seconds: READINESS_WAIT_SECONDS }),
        is_run_tests_action(p[3], conn),
{
    assert(p.subrange(0, 3)[1] == p[1]);
    assert(p.subrange(0, 3)[2] == p[2]);
}

/// The administrator password used when the environment supplies none.
/// Insecure by design and acceptable only for an ephemeral,
/// network-isolated local instance.
pub open spec fn spec_default_sa_password() -> Seq<char> {
    "<YourStrong@Passw0rd>"@
}

/// The administrator password for the run: the environment's value
/// where one was supplied, the documented default otherwise.
pub fn effective_sa_password(env_value: Option<String>) -> (r: String)
    ensures
        (match env_value {
            Some(s) => r@ == s@,
            None => r@ == spec_default_sa_password(),
        }),
{
    match env_value {
        Some(s) => s,
        None => String::from_str("<YourStrong@Passw0rd>"),
    }
}

/// The connection string the test process uses when the environment
/// supplies none: the local endpoint, administrator credentials, and
/// blanket certificate trust.
pub open spec fn spec_default_connection_string(pw: Seq<char>) -> Seq<char> {
    "server=tcp:localhost,1433;user=sa;password="@ + pw + ";TrustServerCertificate=true"@
}

/// The connection string for the test process: the environment's value
/// where one was supplied, the deterministic default otherwise.
pub fn effective_connection_string(env_value: Option<String>, sa_password: &str) -> (r: String)
    ensures
        (match env_value {
            Some(s) => r@ == s@,
            None => r@ == spec_default_connection_string(sa_password@),
        }),
{
    match env_value {
        Some(s) => s,
        None => {
            let mut conn = String::from_str("server=tcp:localhost,1433;user=sa;password=");
            conn.append(sa_password);
            conn.append(";TrustServerCertificate=true");
            conn
        },
    }
}

} // verus!
