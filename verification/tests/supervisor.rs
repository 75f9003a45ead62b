use stratum_monitor::registry::Registry;
use stratum_monitor::role::{tp_log_path, Role};
use stratum_monitor::supervisor::{launch_command, launch_commands, outcome_report};

fn all_roles() -> Vec<Role> {
    vec![
        Role::JdClient,
        Role::JdServer,
        Role::Pool,
        Role::Translator,
        Role::Minerd,
    ]
}

#[test]
fn role_names_are_unique_keys() {
    let names: Vec<&str> = all_roles().iter().map(|r| r.name()).collect();
    assert_eq!(
        names,
        vec!["jd-client", "jd-server", "pool", "translator", "minerd"]
    );
    for i in 0..names.len() {
        for j in 0..names.len() {
            if i != j {
                assert_ne!(names[i], names[j]);
            }
        }
    }
}

#[test]
fn role_log_paths() {
    assert_eq!(
        Role::JdClient.log_path(),
        "stratum/roles/jd-client/jd-client.log"
    );
    assert_eq!(
        Role::JdServer.log_path(),
        "stratum/roles/jd-server/jd-server.log"
    );
    assert_eq!(Role::Pool.log_path(), "stratum/roles/pool/pool.log");
    assert_eq!(
        Role::Translator.log_path(),
        "stratum/roles/translator/translator.log"
    );
    assert_eq!(Role::Minerd.log_path(), "minerd.log");
    assert_eq!(
        tp_log_path(),
        "template-provider/bitcoin-sv2-tp-0.1.19/.bitcoin/testnet4/debug.log"
    );
}

#[test]
fn launch_commands_cover_every_role_once() {
    let commands = launch_commands();
    let roles: Vec<Role> = commands.iter().map(|c| c.role).collect();
    assert_eq!(roles, all_roles());
}

#[test]
fn jd_client_launch_command() {
    let c = launch_command(Role::JdClient);
    assert_eq!(c.program, "cargo");
    assert_eq!(
        c.args,
        vec![
            "run",
            "--release",
            "--",
            "--config",
            "config-examples/jdc-config-local-example.toml",
            "-f",
            "jd-client.log",
        ]
    );
    assert_eq!(c.work_dir, "stratum/roles/jd-client");
    assert!(!c.capture_log);
}

#[test]
fn minerd_launch_command() {
    let c = launch_command(Role::Minerd);
    assert_eq!(c.program, "minerd");
    assert_eq!(
        c.args,
        vec![
            "-t",
            "1",
            "-a",
            "sha256d",
            "-o",
            "stratum+tcp://localhost:34255",
            "-q",
            "-D",
            "-P",
        ]
    );
    assert_eq!(c.work_dir, "");
    assert!(c.capture_log);
}

#[test]
fn registry_holds_one_entry_per_role() {
    let mut registry: Registry<u32> = Registry::new();
    assert_eq!(registry.len(), 0);
    assert!(!registry.contains_role(Role::Pool));
    for (i, role) in all_roles().iter().enumerate() {
        registry.insert(*role, i as u32);
        assert_eq!(registry.len(), i + 1);
        assert!(registry.contains_role(*role));
    }
    let entries = registry.into_entries();
    assert_eq!(entries.len(), 5);
    for (i, entry) in entries.iter().enumerate() {
        assert_eq!(entry.role, all_roles()[i]);
        assert_eq!(entry.handle, i as u32);
    }
}

#[test]
fn registry_insert_replaces_an_existing_role() {
    let mut registry: Registry<u32> = Registry::new();
    registry.insert(Role::Pool, 1);
    registry.insert(Role::Minerd, 2);
    registry.insert(Role::Pool, 7);
    assert_eq!(registry.len(), 2);
    let entries = registry.into_entries();
    assert_eq!(entries[0].role, Role::Pool);
    assert_eq!(entries[0].handle, 7);
    assert_eq!(entries[1].role, Role::Minerd);
    assert_eq!(entries[1].handle, 2);
}

#[test]
fn sweep_visits_every_entry_exactly_once() {
    let mut registry: Registry<u32> = Registry::new();
    for (i, role) in all_roles().iter().enumerate() {
        registry.insert(*role, i as u32);
    }
    let entries = registry.into_entries();
    let mut attempts: Vec<(Role, bool)> = Vec::new();
    for entry in entries {
        // Stand-in for the terminate call of the sweep: one attempt per entry.
        attempts.push((entry.role, entry.handle != 2));
    }
    let report = outcome_report(&attempts);
    assert_eq!(report.attempted, all_roles());
    assert_eq!(report.failed, vec![Role::Pool]);
}

#[test]
fn outcome_report_with_no_failures() {
    let outcomes = vec![(Role::JdClient, true), (Role::JdServer, true)];
    let report = outcome_report(&outcomes);
    assert_eq!(report.attempted, vec![Role::JdClient, Role::JdServer]);
    assert!(report.failed.is_empty());
}

#[test]
fn outcome_report_keeps_failure_order() {
    let outcomes = vec![
        (Role::JdClient, false),
        (Role::JdServer, true),
        (Role::Pool, false),
        (Role::Translator, true),
        (Role::Minerd, false),
    ];
    let report = outcome_report(&outcomes);
    assert_eq!(report.attempted.len(), 5);
    assert_eq!(
        report.failed,
        vec![Role::JdClient, Role::Pool, Role::Minerd]
    );
}
