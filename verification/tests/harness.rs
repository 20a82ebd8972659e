use mssql_harness::lifecycle::{provision_plan, teardown_plan, EngineCmd, SERVER_PORT};
use mssql_harness::orchestrate::{
    after_result, effective_connection_string, effective_sa_password, initial_status, parse_verb,
    plan_for, should_run, Action, RunStatus, Verb, READINESS_WAIT_SECONDS,
};
use mssql_harness::scenario::{
    judge, judge_all, needs_ca, scenario_config, scenario_table, Dialect, EncryptionLevel,
    ExpectedOutcome, ObservedResult, ScenarioId, TrustPolicy, TrustScenario, ROUND_TRIP_VALUE,
};
use mssql_harness::version::{
    container_name, default_version, image_tag, resolve_version, version_token, ServerVersion,
};

#[test]
fn resolve_version_known_tokens() {
    assert!(matches!(resolve_version("2017"), Some(ServerVersion::V2017)));
    assert!(matches!(resolve_version("2019"), Some(ServerVersion::V2019)));
    assert!(matches!(resolve_version("2022"), Some(ServerVersion::V2022)));
    assert!(matches!(resolve_version("azure"), Some(ServerVersion::Azure)));
}

#[test]
fn resolve_version_unknown_token_is_fatal() {
    assert!(resolve_version("2016").is_none());
    assert!(resolve_version("").is_none());
    assert!(resolve_version("AZURE").is_none());
}

#[test]
fn default_version_is_2019() {
    assert_eq!(default_version(), ServerVersion::V2019);
}

#[test]
fn version_tokens_round_trip() {
    for v in [
        ServerVersion::V2017,
        ServerVersion::V2019,
        ServerVersion::V2022,
        ServerVersion::Azure,
    ] {
        assert_eq!(resolve_version(version_token(v)), Some(v));
    }
}

#[test]
fn image_tags_match_lookup_table() {
    assert_eq!(
        image_tag(ServerVersion::V2017),
        "mcr.microsoft.com/mssql/server:2017-latest"
    );
    assert_eq!(
        image_tag(ServerVersion::V2019),
        "mcr.microsoft.com/mssql/server:2019-latest"
    );
    assert_eq!(
        image_tag(ServerVersion::V2022),
        "mcr.microsoft.com/mssql/server:2022-latest"
    );
    assert_eq!(image_tag(ServerVersion::Azure), "mcr.microsoft.com/azure-sql-edge");
}

#[test]
fn container_name_is_deterministic() {
    assert_eq!(container_name(ServerVersion::V2019), "mssql-2019");
    assert_eq!(container_name(ServerVersion::Azure), "mssql-azure");
    assert_eq!(
        container_name(ServerVersion::V2022),
        container_name(ServerVersion::V2022)
    );
}

#[test]
fn provision_plan_removes_then_starts() {
    let plan = provision_plan(ServerVersion::V2022, String::from("secret"));
    assert_eq!(plan.len(), 2);
    match &plan[0] {
        EngineCmd::RemoveForced { name } => assert_eq!(name, "mssql-2022"),
        _ => panic!("first command must be a forced removal"),
    }
    match &plan[1] {
        EngineCmd::Run {
            name,
            image,
            accept_eula,
            sa_password,
            host_port,
            container_port,
        } => {
            assert_eq!(name, "mssql-2022");
            assert_eq!(image, "mcr.microsoft.com/mssql/server:2022-latest");
            assert!(*accept_eula);
            assert_eq!(sa_password, "secret");
            assert_eq!(*host_port, 1433);
            assert_eq!(*container_port, 1433);
        }
        _ => panic!("second command must start the instance"),
    }
}

#[test]
fn provision_twice_targets_one_name() {
    let first = provision_plan(ServerVersion::V2019, String::from("pw"));
    let second = provision_plan(ServerVersion::V2019, String::from("pw"));
    let removed = match &second[0] {
        EngineCmd::RemoveForced { name } => name.clone(),
        _ => panic!("second provision must remove first"),
    };
    let started = match &first[1] {
        EngineCmd::Run { name, .. } => name.clone(),
        _ => panic!("first provision must start an instance"),
    };
    // The second provision removes exactly the instance the first one
    // started, so two provisions leave one running instance.
    assert_eq!(removed, started);
}

#[test]
fn teardown_plan_is_one_forced_removal() {
    let plan = teardown_plan(ServerVersion::V2017);
    assert_eq!(plan.len(), 1);
    match &plan[0] {
        EngineCmd::RemoveForced { name } => assert_eq!(name, "mssql-2017"),
        _ => panic!("teardown must be a forced removal"),
    }
}

#[test]
fn parse_verb_known_tokens() {
    assert!(matches!(parse_verb("container"), Some(Verb::Container)));
    assert!(matches!(parse_verb("test"), Some(Verb::Test)));
    assert!(matches!(parse_verb("local"), Some(Verb::Local)));
    assert!(matches!(parse_verb("stop"), Some(Verb::Stop)));
}

#[test]
fn parse_verb_unknown_token() {
    assert!(parse_verb("").is_none());
    assert!(parse_verb("deploy").is_none());
    assert!(parse_verb("Container").is_none());
}

#[test]
fn container_plan_provisions_and_waits() {
    let plan = plan_for(
        Verb::Container,
        ServerVersion::V2019,
        String::from("pw"),
        String::from("conn"),
    );
    assert_eq!(plan.len(), 3);
    assert!(matches!(
        &plan[0],
        Action::Engine { cmd: EngineCmd::RemoveForced { .. } }
    ));
    assert!(matches!(&plan[1], Action::Engine { cmd: EngineCmd::Run { .. } }));
    match &plan[2] {
        Action::WaitReady { seconds } => assert_eq!(*seconds, 25),
        _ => panic!("provisioning must end in the readiness wait"),
    }
}

#[test]
fn local_plan_ends_in_teardown() {
    let plan = plan_for(
        Verb::Local,
        ServerVersion::V2019,
        String::from("pw"),
        String::from("conn"),
    );
    assert_eq!(plan.len(), 5);
    match &plan[3] {
        Action::RunTests { connection_string } => assert_eq!(connection_string, "conn"),
        _ => panic!("fourth action must invoke the tests"),
    }
    match &plan[4] {
        Action::Engine { cmd: EngineCmd::RemoveForced { name } } => {
            assert_eq!(name, "mssql-2019")
        }
        _ => panic!("last action must be the teardown"),
    }
}

#[test]
fn test_and_stop_plans_are_single_actions() {
    let test_plan = plan_for(
        Verb::Test,
        ServerVersion::V2019,
        String::from("pw"),
        String::from("conn"),
    );
    assert_eq!(test_plan.len(), 1);
    assert!(matches!(&test_plan[0], Action::RunTests { .. }));

    let stop_plan = plan_for(
        Verb::Stop,
        ServerVersion::Azure,
        String::from("pw"),
        String::from("conn"),
    );
    assert_eq!(stop_plan.len(), 1);
    match &stop_plan[0] {
        Action::Engine { cmd: EngineCmd::RemoveForced { name } } => {
            assert_eq!(name, "mssql-azure")
        }
        _ => panic!("stop must be a forced removal"),
    }
}

#[test]
fn teardown_failure_is_swallowed() {
    let teardown = Action::Engine {
        cmd: EngineCmd::RemoveForced { name: String::from("mssql-2019") },
    };
    let st = initial_status();
    // A failed removal (instance absent) neither errors nor changes the
    // pending exit code.
    let after = after_result(st, &teardown, false);
    assert_eq!(after.exit_code, 0);
}

#[test]
fn teardown_runs_after_earlier_failure() {
    let teardown = Action::Engine {
        cmd: EngineCmd::RemoveForced { name: String::from("mssql-2019") },
    };
    let failed = RunStatus { exit_code: 1 };
    assert!(should_run(&failed, &teardown));
    // And it keeps the failure's exit code.
    let after = after_result(failed, &teardown, true);
    assert_eq!(after.exit_code, 1);
}

#[test]
fn start_failure_is_fatal() {
    let start = Action::Engine {
        cmd: EngineCmd::Run {
            name: String::from("mssql-2019"),
            image: String::from("mcr.microsoft.com/mssql/server:2019-latest"),
            accept_eula: true,
            sa_password: String::from("pw"),
            host_port: 1433,
            container_port: 1433,
        },
    };
    let after = after_result(initial_status(), &start, false);
    assert_eq!(after.exit_code, 1);
    // Nothing but teardown runs once the run has failed.
    let tests = Action::RunTests { connection_string: String::from("conn") };
    assert!(!should_run(&after, &tests));
}

#[test]
fn test_failure_sets_exit_code() {
    let tests = Action::RunTests { connection_string: String::from("conn") };
    let after = after_result(initial_status(), &tests, false);
    assert_eq!(after.exit_code, 1);
    let after_ok = after_result(initial_status(), &tests, true);
    assert_eq!(after_ok.exit_code, 0);
}

#[test]
fn sa_password_defaults_when_unset() {
    assert_eq!(effective_sa_password(None), "<YourStrong@Passw0rd>");
    assert_eq!(
        effective_sa_password(Some(String::from("hunter2"))),
        "hunter2"
    );
}

#[test]
fn connection_string_defaults_when_unset() {
    assert_eq!(
        effective_connection_string(None, "<YourStrong@Passw0rd>"),
        "server=tcp:localhost,1433;user=sa;password=<YourStrong@Passw0rd>;TrustServerCertificate=true"
    );
    assert_eq!(
        effective_connection_string(Some(String::from("server=tcp:db,1433")), "pw"),
        "server=tcp:db,1433"
    );
}

#[test]
fn readiness_wait_is_fixed() {
    assert_eq!(READINESS_WAIT_SECONDS, 25);
}

#[test]
fn scenario_table_holds_three_fixed_scenarios() {
    let t = scenario_table();
    assert_eq!(t.len(), 3);
    assert_eq!(
        t[0],
        TrustScenario {
            id: ScenarioId::TrustedCaAdo,
            dialect: Dialect::Ado,
            ca_present: true,
            expected: ExpectedOutcome::SucceedWithValue { value: -4 },
        }
    );
    assert_eq!(
        t[1],
        TrustScenario {
            id: ScenarioId::TrustedCaJdbc,
            dialect: Dialect::Jdbc,
            ca_present: true,
            expected: ExpectedOutcome::SucceedWithValue { value: -4 },
        }
    );
    assert_eq!(
        t[2],
        TrustScenario {
            id: ScenarioId::NoCaEncryptionRequired,
            dialect: Dialect::ExplicitFields,
            ca_present: false,
            expected: ExpectedOutcome::FailWithConnectionError,
        }
    );
    assert_eq!(ROUND_TRIP_VALUE, -4);
}

#[test]
fn trusted_ca_ado_round_trip_passes() {
    let t = scenario_table();
    let outcome = judge(
        &t[0],
        &ObservedResult::Connected { first_column: Some(-4) },
    );
    assert_eq!(outcome.scenario, ScenarioId::TrustedCaAdo);
    assert!(outcome.pass);
    // A wrong value, a missing row, or a rejected connect all fail.
    assert!(!judge(&t[0], &ObservedResult::Connected { first_column: Some(4) }).pass);
    assert!(!judge(&t[0], &ObservedResult::Connected { first_column: None }).pass);
    assert!(!judge(&t[0], &ObservedResult::ConnectFailed).pass);
}

#[test]
fn trusted_ca_jdbc_round_trip_passes() {
    let t = scenario_table();
    let outcome = judge(
        &t[1],
        &ObservedResult::Connected { first_column: Some(-4) },
    );
    assert_eq!(outcome.scenario, ScenarioId::TrustedCaJdbc);
    assert!(outcome.pass);
    assert!(!judge(&t[1], &ObservedResult::Connected { first_column: Some(0) }).pass);
}

#[test]
fn missing_ca_connection_must_fail() {
    let t = scenario_table();
    // A rejected connect is the expected outcome.
    assert!(judge(&t[2], &ObservedResult::ConnectFailed).pass);
    // Any successful connection is a defect in trust enforcement.
    assert!(!judge(&t[2], &ObservedResult::Connected { first_column: Some(-4) }).pass);
    assert!(!judge(&t[2], &ObservedResult::Connected { first_column: None }).pass);
}

#[test]
fn suite_verdicts_follow_observations() {
    let t = scenario_table();
    let all_good = vec![
        ObservedResult::Connected { first_column: Some(-4) },
        ObservedResult::Connected { first_column: Some(-4) },
        ObservedResult::ConnectFailed,
    ];
    let outcomes = judge_all(&t, &all_good);
    assert_eq!(outcomes.len(), 3);
    assert!(outcomes.iter().all(|o| o.pass));

    // Re-judging the same observations yields the same verdicts.
    let again = judge_all(&t, &all_good);
    assert_eq!(outcomes, again);

    let broken_trust = vec![
        ObservedResult::Connected { first_column: Some(-4) },
        ObservedResult::ConnectFailed,
        ObservedResult::Connected { first_column: None },
    ];
    let outcomes = judge_all(&t, &broken_trust);
    assert!(outcomes[0].pass);
    assert!(!outcomes[1].pass);
    assert!(!outcomes[2].pass);
}

#[test]
fn fixed_suite_requires_ca_material() {
    // Two of the three fixed scenarios use the CA, so its presence is a
    // precondition of the whole suite.
    let t = scenario_table();
    assert!(needs_ca(&t));

    let without_ca = vec![TrustScenario {
        id: ScenarioId::NoCaEncryptionRequired,
        dialect: Dialect::ExplicitFields,
        ca_present: false,
        expected: ExpectedOutcome::FailWithConnectionError,
    }];
    assert!(!needs_ca(&without_ca));
    assert!(!needs_ca(&Vec::new()));
}

#[test]
fn scenario_config_carries_trust_material() {
    let t = scenario_table();
    let ca = vec![48u8, 130, 1, 10];
    let config = scenario_config(&t[0], Some(ca.clone()), String::from("pw"));
    assert_eq!(config.host, "localhost");
    assert_eq!(config.port, 1433);
    assert_eq!(config.port, SERVER_PORT);
    assert_eq!(config.user, "sa");
    assert_eq!(config.password, "pw");
    assert!(matches!(config.encryption, EncryptionLevel::On));
    match &config.trust {
        Some(TrustPolicy::TrustNamedCa { ca: bytes }) => assert_eq!(bytes, &ca),
        _ => panic!("the trusted scenario must trust the named CA"),
    }
    assert!(matches!(config.dialect, Dialect::Ado));
}

#[test]
fn scenario_config_without_ca_requires_encryption() {
    let t = scenario_table();
    let config = scenario_config(&t[2], None, String::from("pw"));
    assert!(config.trust.is_none());
    assert!(matches!(config.encryption, EncryptionLevel::Required));
    assert!(matches!(config.dialect, Dialect::ExplicitFields));
}

#[test]
fn dialect_configs_agree_on_semantic_fields() {
    let t = scenario_table();
    let ca = vec![1u8, 2, 3];
    let ado = scenario_config(&t[0], Some(ca.clone()), String::from("pw"));
    let jdbc = scenario_config(&t[1], Some(ca.clone()), String::from("pw"));
    assert_eq!(ado.host, jdbc.host);
    assert_eq!(ado.port, jdbc.port);
    assert_eq!(ado.user, jdbc.user);
    assert_eq!(ado.password, jdbc.password);
    assert!(matches!(jdbc.dialect, Dialect::Jdbc));
}
