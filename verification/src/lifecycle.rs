//! Container lifecycle plans and their effect on the engine.
//!
//! Provisioning and teardown are expressed as short plans of engine
//! commands: a forced removal of any stale instance with the
//! deterministic name, and a start of a fresh instance with the required
//! environment.  The engine itself is modelled as the set of names of
//! running instances; `apply_plan` gives a plan's effect on that state,
//! and the lemmas below show that provisioning is idempotent and that
//! teardown of an absent instance is a harmless no-op.

use vstd::prelude::*;
use vstd::string::*;

use crate::version::ServerVersion;
use crate::version::container_name;
use crate::version::image_tag;
use crate::version::spec_container_name;
use crate::version::spec_image_tag;

verus! {

/// The port the server listens on, both inside the container and on the
/// host side of the fixed port mapping.
pub const SERVER_PORT: u16 = 1433;

/// One invocation of the external container engine.
pub enum EngineCmd {
    /// Forced removal of the instance with the given name; succeeds
    /// whether or not such an instance exists.
    RemoveForced { name: String },
    /// Start of a fresh, detached instance: name, image, license
    /// acceptance, administrator password, and the host-to-container
    /// port mapping.
    Run {
        name: String,
        image: String,
        accept_eula: bool,
        sa_password: String,
        host_port: u16,
        container_port: u16,
    },
}

/// The engine state: the set of names of running instances.  The engine
/// enforces unique names, so a set is a faithful model.
pub open spec fn apply_cmd(running: Set<Seq<char>>, cmd: EngineCmd) -> Set<Seq<char>> {
    match cmd {
        EngineCmd::RemoveForced { name } => running.remove(name@),
        EngineCmd::Run { name, .. } => running.insert(name@),
    }
}

/// The effect of a plan, applied command by command.
pub open spec fn apply_plan(running: Set<Seq<char>>, plan: Seq<EngineCmd>) -> Set<Seq<char>>
    decreases plan.len(),
{
    if plan.len() == 0 {
        running
    } else {
        apply_plan(apply_cmd(running, plan[0]), plan.subrange(1, plan.len() as int))
    }
}

/// A forced removal of the instance named for `version`.
pub open spec fn is_remove_cmd(c: EngineCmd, version: ServerVersion) -> bool {
    c matches EngineCmd::RemoveForced { name } && name@ == spec_container_name(version)
}

/// A start of a fresh instance for `version`: deterministic name, the
/// version's image, license accepted, the given administrator password,
/// and the fixed port mapping.
pub open spec fn is_run_cmd(c: EngineCmd, version: ServerVersion, pw: Seq<char>) -> bool {
    c matches EngineCmd::Run { name, image, accept_eula, sa_password, host_port, container_port }
        && name@ == spec_container_name(version)
        && image@ == spec_image_tag(version)
        && accept_eula == true
        && sa_password@ == pw
        && host_port == SERVER_PORT
        && container_port == SERVER_PORT
}

/// The provision plan: remove any stale instance first, then start a
/// fresh one.
pub open spec fn is_provision_plan(plan: Seq<EngineCmd>, version: ServerVersion, pw: Seq<char>) -> bool {
    &&& plan.len() == 2
    &&& is_remove_cmd(plan[0], version)
    &&& is_run_cmd(plan[1], version, pw)
}

/// The teardown plan: a single forced removal.
pub open spec fn is_teardown_plan(plan: Seq<EngineCmd>, version: ServerVersion) -> bool {
    &&& plan.len() == 1
    &&& is_remove_cmd(plan[0], version)
}

/// Builds the provision plan for a version: forced removal of any stale
/// instance with the deterministic name, then a start of a fresh
/// instance with the required environment and port mapping.
pub fn provision_plan(version: ServerVersion, sa_password: String) -> (r: Vec<EngineCmd>)
    ensures
        is_provision_plan(r@, version, sa_password@),
{
    let mut plan: Vec<EngineCmd> = Vec::new();
    plan.push(EngineCmd::RemoveForced { name: container_name(version) });
    plan.push(
        EngineCmd::Run {
            name: container_name(version),
            image: String::from_str(image_tag(version)),
            accept_eula: true,
            sa_password,
            host_port: SERVER_PORT,
            container_port: SERVER_PORT,
        },
    );
    plan
}

/// Builds the teardown plan for a version: one forced removal by the
/// deterministic name.
pub fn teardown_plan(version: ServerVersion) -> (r: Vec<EngineCmd>)
    ensures
        is_teardown_plan(r@, version),
{
    let mut plan: Vec<EngineCmd> = Vec::new();
    plan.push(EngineCmd::RemoveForced { name: container_name(version) });
    plan
}

/// Provisioning is idempotent.  After one provision plan the instance
/// for the version is running; a second application of the same plan
/// leaves the engine exactly as the first did, so two provisions in
/// succession result in exactly one running instance for the version;
/// and no instance with another name is touched.
pub proof fn lemma_provision_idempotent(
    running: Set<Seq<char>>,
    plan: Seq<EngineCmd>,
    version: ServerVersion,
    pw: Seq<char>,
)
    requires
        is_provision_plan(plan, version, pw),
    ensures
        apply_plan(running, plan).contains(spec_container_name(version)),
        apply_plan(apply_plan(running, plan), plan) == apply_plan(running, plan),
        forall|other: Seq<char>|
            other != spec_container_name(version) ==> apply_plan(running, plan).contains(other)
                == running.contains(other),
{
    lemma_provision_effect(running, plan, version, pw);
    lemma_provision_effect(apply_plan(running, plan), plan, version, pw);
    assert(apply_plan(apply_plan(running, plan), plan) =~= apply_plan(running, plan));
}

/// The effect of one provision plan: the instance for the version is
/// running, and every other name is as it was.
pub proof fn lemma_provision_effect(
    running: Set<Seq<char>>,
    plan: Seq<EngineCmd>,
    version: ServerVersion,
    pw: Seq<char>,
)
    requires
        is_provision_plan(plan, version, pw),
    ensures
        apply_plan(running, plan) == running.remove(spec_container_name(version)).insert(
            spec_container_name(version),
        ),
{
    let n = spec_container_name(version);
    let after_remove = apply_cmd(running, plan[0]);
    let rest = plan.subrange(1, 2);
    assert(after_remove == running.remove(n));
    assert(rest.len() == 1);
    assert(rest[0] == plan[1]);
    let after_run = apply_cmd(after_remove, rest[0]);
    assert(after_run == running.remove(n).insert(n));
    let empty = rest.subrange(1, 1);
    assert(empty.len() == 0);
    assert(apply_plan(after_run, empty) == after_run);
    assert(apply_plan(after_remove, rest) == after_run);
    assert(apply_plan(running, plan) == apply_plan(after_remove, rest));
}

/// Provisioning is reproducible: any two provision plans for the same
/// version and password have the same effect on every engine state, so
/// a re-run of the suite faces a freshly provisioned instance in the
/// same state as the first run did.
pub proof fn lemma_provision_reproducible(
    running: Set<Seq<char>>,
    p1: Seq<EngineCmd>,
    p2: Seq<EngineCmd>,
    version: ServerVersion,
    pw: Seq<char>,
)
    requires
        is_provision_plan(p1, version, pw),
        is_provision_plan(p2, version, pw),
    ensures
        apply_plan(running, p1) == apply_plan(running, p2),
{
    lemma_provision_effect(running, p1, version, pw);
    lemma_provision_effect(running, p2, version, pw);
}

/// Teardown removes the instance for the version; called on an engine
/// where that instance is absent, it changes nothing.
pub proof fn lemma_teardown_absent_is_noop(
    running: Set<Seq<char>>,
    plan: Seq<EngineCmd>,
    version: ServerVersion,
)
    requires
        is_teardown_plan(plan, version),
    ensures
        !apply_plan(running, plan).contains(spec_container_name(version)),
        !running.contains(spec_container_name(version)) ==> apply_plan(running, plan) == running,
{
    let n = spec_container_name(version);
    let after_remove = apply_cmd(running, plan[0]);
    let empty = plan.subrange(1, 1);
    assert(empty.len() == 0);
    assert(apply_plan(after_remove, empty) == after_remove);
    assert(apply_plan(running, plan) == running.remove(n));
    if !running.contains(n) {
        assert(running.remove(n) =~= running);
    }
}

} // verus!
