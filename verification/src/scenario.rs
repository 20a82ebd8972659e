//! Certificate-trust scenarios and their pass/fail judgement.
//!
//! Three fixed scenarios exist: two connect with the trusted custom CA
//! through alternative connection-string dialects and must round-trip a
//! signed integer through a parameterized query, and one connects with
//! no CA supplied while the server requires encryption and must be
//! rejected.  A scenario's verdict is a pure function of the scenario
//! and the observed connection result; establishing the connection and
//! running the query is left to an unverified driver, which hands the
//! observation back for judgement.

use vstd::prelude::*;
use vstd::string::*;

use crate::lifecycle::SERVER_PORT;

verus! {

/// The textual syntax a connection configuration was expressed in.
#[derive(Clone, Copy, PartialEq, Eq, Structural, Debug)]
pub enum Dialect {
    Ado,
    Jdbc,
    ExplicitFields,
}

/// How much of the conversation must be encrypted.
#[derive(Clone, Copy, PartialEq, Eq, Structural, Debug)]
pub enum EncryptionLevel {
    Off,
    On,
    Required,
}

/// The rule the client applies to the server's certificate.  Absent
/// trust material means the client falls back to its system roots,
/// under which the ephemeral server's certificate is not acceptable.
pub enum TrustPolicy {
    /// Accept any certificate the server presents.
    TrustAny,
    /// Accept only a certificate issued by the named CA.
    TrustNamedCa { ca: Vec<u8> },
}

/// A connection configuration, immutable once built and consumed once
/// per connection attempt.
pub struct ConnectionConfig {
    pub host: String,
    pub port: u16,
    pub user: String,
    pub password: String,
    pub encryption: EncryptionLevel,
    /// `None`: no trust material supplied, system roots only.
    pub trust: Option<TrustPolicy>,
    pub dialect: Dialect,
}

/// Identifies one of the three fixed scenarios.
#[derive(Clone, Copy, PartialEq, Eq, Structural, Debug)]
pub enum ScenarioId {
    TrustedCaAdo,
    TrustedCaJdbc,
    NoCaEncryptionRequired,
}

/// What a scenario expects of its connection attempt.
#[derive(Clone, Copy, PartialEq, Eq, Structural, Debug)]
pub enum ExpectedOutcome {
    /// The connect must succeed and a fixed parameterized query must
    /// return a first row whose first column is exactly this value.
    SucceedWithValue { value: i32 },
    /// The connect must be rejected; any successful connection is a
    /// defect in trust enforcement.
    FailWithConnectionError,
}

/// One certificate-trust scenario.
#[derive(Clone, Copy, PartialEq, Eq, Structural, Debug)]
pub struct TrustScenario {
    pub id: ScenarioId,
    pub dialect: Dialect,
    pub ca_present: bool,
    pub expected: ExpectedOutcome,
}

/// What the driver observed when it attempted a scenario's connection:
/// either the handshake was rejected, or it succeeded and the fixed
/// query's first row held this first column (`None`: no row came back).
#[derive(Clone, Copy, PartialEq, Eq, Structural, Debug)]
pub enum ObservedResult {
    ConnectFailed,
    Connected { first_column: Option<i32> },
}

/// The verdict for one scenario run.
#[derive(Clone, Copy, PartialEq, Eq, Structural, Debug)]
pub struct TestOutcome {
    pub scenario: ScenarioId,
    pub pass: bool,
}

/// The signed integer round-tripped through the fixed query.
pub const ROUND_TRIP_VALUE: i32 = -4;

/// The fixed scenario table: trusted CA over the ado dialect, trusted
/// CA over the jdbc dialect, and no CA with encryption required.
pub open spec fn is_scenario_table(t: Seq<TrustScenario>) -> bool {
    &&& t.len() == 3
    &&& t[0] == (TrustScenario {
        id: ScenarioId::TrustedCaAdo,
        dialect: Dialect::Ado,
        ca_present: true,
        expected: ExpectedOutcome::SucceedWithValue { value: ROUND_TRIP_VALUE },
    })
    &&& t[1] == (TrustScenario {
        id: ScenarioId::TrustedCaJdbc,
        dialect: Dialect::Jdbc,
        ca_present: true,
        expected: ExpectedOutcome::SucceedWithValue { value: ROUND_TRIP_VALUE },
    })
    &&& t[2] == (TrustScenario {
        id: ScenarioId::NoCaEncryptionRequired,
        dialect: Dialect::ExplicitFields,
        ca_present: false,
        expected: ExpectedOutcome::FailWithConnectionError,
    })
}

/// Builds the fixed scenario table.
pub fn scenario_table() -> (r: Vec<TrustScenario>)
    ensures
        is_scenario_table(r@),
{
    let mut t: Vec<TrustScenario> = Vec::new();
    t.push(TrustScenario {
        id: ScenarioId::TrustedCaAdo,
        dialect: Dialect::Ado,
        ca_present: true,
        expected: ExpectedOutcome::SucceedWithValue { value: ROUND_TRIP_VALUE },
    });
    t.push(TrustScenario {
        id: ScenarioId::TrustedCaJdbc,
        dialect: Dialect::Jdbc,
        ca_present: true,
        expected: ExpectedOutcome::SucceedWithValue { value: ROUND_TRIP_VALUE },
    });
    t.push(TrustScenario {
        id: ScenarioId::NoCaEncryptionRequired,
        dialect: Dialect::ExplicitFields,
        ca_present: false,
        expected: ExpectedOutcome::FailWithConnectionError,
    });
    t
}

/// Whether any scenario of a table calls for CA material.  The
/// material is a precondition of such a table, not optional
/// configuration: the driver must read it before any scenario runs and
/// treat a failed read as a hard failure, not a skipped scenario.
pub open spec fn spec_needs_ca(t: Seq<TrustScenario>) -> bool {
    exists|i: int| 0 <= i < t.len() && t[i].ca_present
}

/// Decides whether a table calls for CA material.
pub fn needs_ca(t: &Vec<TrustScenario>) -> (r: bool)
    ensures
        r == spec_needs_ca(t@),
{
    let mut i: usize = 0;
    while i < t.len()
        invariant
            i <= t@.len(),
            forall|j: int| 0 <= j < i ==> !t@[j].ca_present,
        decreases t@.len() - i,
    {
        if t[i].ca_present {
            return true;
        }
        i = i + 1;
    }
    false
}

/// The semantic content of a configuration built for a scenario, over
/// mathematical values.
pub struct ConfigView {
    pub host: Seq<char>,
    pub port: u16,
    pub user: Seq<char>,
    pub password: Seq<char>,
    pub encryption: EncryptionLevel,
    pub trust_ca: Option<Seq<u8>>,
    pub dialect: Dialect,
}

impl View for ConnectionConfig {
    type V = ConfigView;

    open spec fn view(&self) -> ConfigView {
        ConfigView {
            host: self.host@,
            port: self.port,
            user: self.user@,
            password: self.password@,
            encryption: self.encryption,
            trust_ca: match self.trust {
                Some(TrustPolicy::TrustAny) => Some(Seq::empty()),
                Some(TrustPolicy::TrustNamedCa { ca }) => Some(ca@),
                None => None,
            },
            dialect: self.dialect,
        }
    }
}

/// The bytes held by an optional CA file.
pub open spec fn spec_opt_bytes(ca: Option<Vec<u8>>) -> Option<Seq<u8>> {
    match ca {
        Some(bytes) => Some(bytes@),
        None => None,
    }
}

/// The configuration a scenario calls for: the local server endpoint,
/// administrator credentials, trust in the named CA exactly when the
/// scenario supplies CA material, and encryption required when it
/// supplies none.
pub open spec fn spec_scenario_config(
    s: TrustScenario,
    ca: Option<Seq<u8>>,
    password: Seq<char>,
) -> ConfigView {
    ConfigView {
        host: "localhost"@,
        port: SERVER_PORT,
        user: "sa"@,
        password: password,
        encryption: if s.ca_present {
            EncryptionLevel::On
        } else {
            EncryptionLevel::Required
        },
        trust_ca: if s.ca_present {
            ca
        } else {
            None
        },
        dialect: s.dialect,
    }
}

/// Builds the connection configuration for a scenario.  CA material
/// must be supplied exactly when the scenario calls for it; reading the
/// material from disk is the caller's job and its absence where called
/// for is a hard failure there, not here.
pub fn scenario_config(s: &TrustScenario, ca: Option<Vec<u8>>, password: String) -> (r:
    ConnectionConfig)
    requires
        s.ca_present == ca is Some,
    ensures
        r@ == spec_scenario_config(*s, spec_opt_bytes(ca), password@),
{
    let trust: Option<TrustPolicy> = match ca {
        Some(bytes) => Some(TrustPolicy::TrustNamedCa { ca: bytes }),
        None => None,
    };
    let encryption = if s.ca_present {
        EncryptionLevel::On
    } else {
        EncryptionLevel::Required
    };
    ConnectionConfig {
        host: String::from_str("localhost"),
        port: SERVER_PORT,
        user: String::from_str("sa"),
        password,
        encryption,
        trust,
        dialect: s.dialect,
    }
}

/// Whether an observation satisfies an expectation: an expected success
/// passes exactly when the connect succeeded and the round-tripped
/// first column equals the expected value; an expected failure passes
/// exactly when the connect was rejected.
pub open spec fn spec_passes(expected: ExpectedOutcome, obs: ObservedResult) -> bool {
    match expected {
        ExpectedOutcome::SucceedWithValue { value } => obs matches ObservedResult::Connected {
            first_column: Some(v),
        } && v == value,
        ExpectedOutcome::FailWithConnectionError => obs is ConnectFailed,
    }
}

/// Judges one scenario against what the driver observed.
pub fn judge(s: &TrustScenario, obs: &ObservedResult) -> (r: TestOutcome)
    ensures
        r.scenario == s.id,
        r.pass == spec_passes(s.expected, *obs),
{
    let pass = match (&s.expected, obs) {
        (
            ExpectedOutcome::SucceedWithValue { value },
            ObservedResult::Connected { first_column },
        ) => match first_column {
            Some(v) => *v == *value,
            None => false,
        },
        (ExpectedOutcome::SucceedWithValue { .. }, ObservedResult::ConnectFailed) => false,
        (ExpectedOutcome::FailWithConnectionError, ObservedResult::ConnectFailed) => true,
        (ExpectedOutcome::FailWithConnectionError, ObservedResult::Connected { .. }) => false,
    };
    TestOutcome { scenario: s.id, pass }
}

/// The verdicts of a whole suite run, scenario by scenario.
pub open spec fn suite_verdicts(t: Seq<TrustScenario>, obs: Seq<ObservedResult>) -> Seq<bool> {
    Seq::new(t.len(), |i: int| spec_passes(t[i].expected, obs[i]))
}

/// Judges every scenario of a suite against the corresponding
/// observation.
pub fn judge_all(table: &Vec<TrustScenario>, obs: &Vec<ObservedResult>) -> (r: Vec<TestOutcome>)
    requires
        table@.len() == obs@.len(),
    ensures
        r@.len() == table@.len(),
        forall|i: int|
            0 <= i < r@.len() ==> r@[i].scenario == table@[i].id && r@[i].pass == suite_verdicts(
                table@,
                obs@,
            )[i],
{
    let mut out: Vec<TestOutcome> = Vec::new();
    let mut i: usize = 0;
    while i < table.len()
        invariant
            table@.len() == obs@.len(),
            i <= table@.len(),
            out@.len() == i,
            forall|j: int|
                0 <= j < i ==> out@[j].scenario == table@[j].id && out@[j].pass == spec_passes(
                    table@[j].expected,
                    obs@[j],
                ),
        decreases table@.len() - i,
    {
        let outcome = judge(&table[i], &obs[i]);
        out.push(outcome);
        i = i + 1;
    }
    out
}

/// Determinism of the suite: the verdicts are a function of the
/// scenario table and the observed connection results alone, so two
/// runs that observe the same results reach the same pass/fail
/// outcomes.
pub proof fn lemma_suite_deterministic(
    t1: Seq<TrustScenario>,
    t2: Seq<TrustScenario>,
    obs1: Seq<ObservedResult>,
    obs2: Seq<ObservedResult>,
)
    requires
        t1 == t2,
        obs1 == obs2,
    ensures
        suite_verdicts(t1, obs1) == suite_verdicts(t2, obs2),
{
}

/// The two trusted-CA scenarios differ only in dialect: given the same
/// CA material and credentials they call for configurations that agree
/// on every semantic field but the dialect tag, they expect the same
/// outcome, and any one observation satisfies one exactly when it
/// satisfies the other.  The dialects are therefore equivalent as far
/// as the suite can tell.
pub proof fn lemma_dialects_equivalent(
    t: Seq<TrustScenario>,
    ca: Option<Seq<u8>>,
    password: Seq<char>,
    obs: ObservedResult,
)
    requires
        is_scenario_table(t),
    ensures
        t[0].expected == t[1].expected,
        spec_scenario_config(t[0], ca, password) == (ConfigView {
            dialect: Dialect::Ado,
            ..spec_scenario_config(t[1], ca, password)
        }),
        spec_passes(t[0].expected, obs) == spec_passes(t[1].expected, obs),
{
}

/// Trust enforcement in the negative scenario: where a scenario expects
/// a connection failure, no observation in which the connect succeeded
/// can pass, whatever the query returned.
pub proof fn lemma_no_ca_connection_is_defect(s: TrustScenario, obs: ObservedResult)
    requires
        s.expected is FailWithConnectionError,
        obs is Connected,
    ensures
        !spec_passes(s.expected, obs),
{
}

} // verus!
