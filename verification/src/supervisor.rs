//! The supervisor's launch plan and its per-role reports.
//!
//! Launching and terminating processes is operating-system work; what the
//! supervisor decides — which program each role runs, with which arguments,
//! in which directory, where its output goes, and how a sweep's per-role
//! outcomes are summed up — is fixed here. A launch failure does not abort
//! the remaining launches: every role is attempted and the failures are
//! surfaced together.
use vstd::prelude::*;
use vstd::string::StringExecFns;
use crate::role::Role;
use crate::role::launch_order;

verus! {

/// Everything needed to start one role's process: the program, its
/// arguments, the working directory relative to the deployment base (empty
/// for the base itself), and whether the process's own output is captured
/// into the role's log file (when not, the role writes its log itself and
/// the output is discarded).
pub struct LaunchCommand {
    pub role: Role,
    pub program: String,
    pub args: Vec<String>,
    pub work_dir: String,
    pub capture_log: bool,
}

/// The program a role is started with.
pub open spec fn spec_program(role: Role) -> Seq<char> {
    match role {
        Role::Minerd => "minerd"@,
        _ => "cargo"@,
    }
}

/// The arguments a role is started with.
pub open spec fn spec_args(role: Role) -> Seq<Seq<char>> {
    match role {
        Role::JdClient => seq![
            "run"@,
            "--release"@,
            "--"@,
            "--config"@,
            "config-examples/jdc-config-local-example.toml"@,
            "-f"@,
            "jd-client.log"@,
        ],
        Role::JdServer => seq![
            "run"@,
            "--release"@,
            "--"@,
            "--config"@,
            "config-examples/jds-config-local-example.toml"@,
            "-f"@,
            "jd-server.log"@,
        ],
        Role::Pool => seq![
            "run"@,
            "--release"@,
            "--"@,
            "--config"@,
            "config-examples/pool-config-local-tp-example.toml"@,
            "-f"@,
            "pool.log"@,
        ],
        Role::Translator => seq![
            "run"@,
            "--release"@,
            "--"@,
            "--config"@,
            "config-examples/tproxy-config-local-pool-example.toml"@,
            "-f"@,
            "translator.log"@,
        ],
        Role::Minerd => seq![
            "-t"@,
            "1"@,
            "-a"@,
            "sha256d"@,
            "-o"@,
            "stratum+tcp://localhost:34255"@,
            "-q"@,
            "-D"@,
            "-P"@,
        ],
    }
}

/// The working directory a role is started in, relative to the deployment
/// base directory.
pub open spec fn spec_work_dir(role: Role) -> Seq<char> {
    match role {
        Role::JdClient => "stratum/roles/jd-client"@,
        Role::JdServer => "stratum/roles/jd-server"@,
        Role::Pool => "stratum/roles/pool"@,
        Role::Translator => "stratum/roles/translator"@,
        Role::Minerd => ""@,
    }
}

impl LaunchCommand {
    /// The command is exactly the one fixed for its role.
    pub open spec fn wf(self) -> bool {
        &&& self.program@ == spec_program(self.role)
        &&& self.args.deep_view() == spec_args(self.role)
        &&& self.work_dir@ == spec_work_dir(self.role)
        &&& self.capture_log == (self.role == Role::Minerd)
    }
}

/// Build the launch command of one role.
pub fn launch_command(role: Role) -> (r: LaunchCommand)
    ensures
        r.role == role,
        r.wf(),
{
    let mut args: Vec<String> = Vec::new();
    let program: String;
    let work_dir: String;
    match role {
        Role::JdClient => {
            program = String::from_str("cargo");
            work_dir = String::from_str("stratum/roles/jd-client");
            args.push(String::from_str("run"));
            args.push(String::from_str("--release"));
            args.push(String::from_str("--"));
            args.push(String::from_str("--config"));
            args.push(String::from_str("config-examples/jdc-config-local-example.toml"));
            args.push(String::from_str("-f"));
            args.push(String::from_str("jd-client.log"));
            proof {
                assert(args.deep_view() =~= spec_args(role));
            }
        },
        Role::JdServer => {
            program = String::from_str("cargo");
            work_dir = String::from_str("stratum/roles/jd-server");
            args.push(String::from_str("run"));
            args.push(String::from_str("--release"));
            args.push(String::from_str("--"));
            args.push(String::from_str("--config"));
            args.push(String::from_str("config-examples/jds-config-local-example.toml"));
            args.push(String::from_str("-f"));
            args.push(String::from_str("jd-server.log"));
            proof {
                assert(args.deep_view() =~= spec_args(role));
            }
        },
        Role::Pool => {
            program = String::from_str("cargo");
            work_dir = String::from_str("stratum/roles/pool");
            args.push(String::from_str("run"));
            args.push(String::from_str("--release"));
            args.push(String::from_str("--"));
            args.push(String::from_str("--config"));
            args.push(String::from_str("config-examples/pool-config-local-tp-example.toml"));
            args.push(String::from_str("-f"));
            args.push(String::from_str("pool.log"));
            proof {
                assert(args.deep_view() =~= spec_args(role));
            }
        },
        Role::Translator => {
            program = String::from_str("cargo");
            work_dir = String::from_str("stratum/roles/translator");
            args.push(String::from_str("run"));
            args.push(String::from_str("--release"));
            args.push(String::from_str("--"));
            args.push(String::from_str("--config"));
            args.push(String::from_str("config-examples/tproxy-config-local-pool-example.toml"));
            args.push(String::from_str("-f"));
            args.push(String::from_str("translator.log"));
            proof {
                assert(args.deep_view() =~= spec_args(role));
            }
        },
        Role::Minerd => {
            program = String::from_str("minerd");
            work_dir = String::from_str("");
            args.push(String::from_str("-t"));
            args.push(String::from_str("1"));
            args.push(String::from_str("-a"));
            args.push(String::from_str("sha256d"));
            args.push(String::from_str("-o"));
            args.push(String::from_str("stratum+tcp://localhost:34255"));
            args.push(String::from_str("-q"));
            args.push(String::from_str("-D"));
            args.push(String::from_str("-P"));
            proof {
                assert(args.deep_view() =~= spec_args(role));
            }
        },
    }
    LaunchCommand { role, program, args, work_dir, capture_log: matches!(role, Role::Minerd) }
}

/// Law: the launch order covers each role exactly once.
pub proof fn lemma_launch_order_distinct()
    ensures
        launch_order().no_duplicates(),
        launch_order().len() == 5,
{
}

/// Build the launch commands of every role, in launch order.
pub fn launch_commands() -> (r: Vec<LaunchCommand>)
    ensures
        r.view().len() == launch_order().len(),
        forall|i: int|
            0 <= i < r.view().len() ==> (#[trigger] r.view()[i]).role == launch_order()[i]
                && r.view()[i].wf(),
{
    let mut commands: Vec<LaunchCommand> = Vec::new();
    commands.push(launch_command(Role::JdClient));
    commands.push(launch_command(Role::JdServer));
    commands.push(launch_command(Role::Pool));
    commands.push(launch_command(Role::Translator));
    commands.push(launch_command(Role::Minerd));
    commands
}

/// A per-role summary of a launch pass or a shutdown sweep: every role
/// attempted, in order, and the ones whose attempt failed, in the same
/// order.
pub struct OutcomeReport {
    pub attempted: Vec<Role>,
    pub failed: Vec<Role>,
}

/// The roles whose attempt failed, in the order attempted.
pub open spec fn spec_failed(outcomes: Seq<(Role, bool)>) -> Seq<Role>
    decreases outcomes.len(),
{
    if outcomes.len() == 0 {
        Seq::empty()
    } else {
        let rest = spec_failed(outcomes.drop_last());
        if !outcomes.last().1 {
            rest.push(outcomes.last().0)
        } else {
            rest
        }
    }
}

/// Sum up per-role outcomes — `true` for a successful attempt — into an
/// aggregate report. No outcome is dropped: every role attempted is
/// recorded, and exactly the failed ones are surfaced, in order.
pub fn outcome_report(outcomes: &Vec<(Role, bool)>) -> (r: OutcomeReport)
    ensures
        r.attempted@ == outcomes@.map_values(|p: (Role, bool)| p.0),
        r.failed@ == spec_failed(outcomes@),
{
    let mut attempted: Vec<Role> = Vec::new();
    let mut failed: Vec<Role> = Vec::new();
    let mut i: usize = 0;
    while i < outcomes.len()
        invariant
            i <= outcomes.len(),
            attempted@ =~= outcomes@.subrange(0, i as int).map_values(|p: (Role, bool)| p.0),
            failed@ == spec_failed(outcomes@.subrange(0, i as int)),
        decreases outcomes.len() - i,
    {
        let (role, ok) = outcomes[i];
        attempted.push(role);
        if !ok {
            failed.push(role);
        }
        i = i + 1;
        proof {
            let part = outcomes@.subrange(0, i as int);
            assert(part.drop_last() =~= outcomes@.subrange(0, i - 1));
            assert(part.last() == outcomes@[i - 1]);
            assert(attempted@ =~= part.map_values(|p: (Role, bool)| p.0));
        }
    }
    proof {
        assert(outcomes@.subrange(0, outcomes@.len() as int) =~= outcomes@);
    }
    OutcomeReport { attempted, failed }
}

} // verus!
