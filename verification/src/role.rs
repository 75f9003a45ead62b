//! The fixed set of worker roles the supervisor manages.
//!
//! Four pipeline roles are built and run from the worker source tree, and
//! one auxiliary miner role runs as a plain binary. Each role carries its
//! unique name and the path of the log file its output is tailed from; both
//! are fixed at configuration time. The template provider is not launched
//! here, but its debug log is tailed like the roles' own logs.
use vstd::prelude::*;

verus! {

/// One worker role of the fixed set.
#[derive(Clone, Copy, PartialEq, Eq, Structural, Debug, Hash)]
pub enum Role {
    JdClient,
    JdServer,
    Pool,
    Translator,
    Minerd,
}

/// The order in which the roles are launched.
pub open spec fn launch_order() -> Seq<Role> {
    seq![Role::JdClient, Role::JdServer, Role::Pool, Role::Translator, Role::Minerd]
}

impl Role {
    /// The role's unique name.
    pub open spec fn spec_name(self) -> Seq<char> {
        match self {
            Role::JdClient => "jd-client"@,
            Role::JdServer => "jd-server"@,
            Role::Pool => "pool"@,
            Role::Translator => "translator"@,
            Role::Minerd => "minerd"@,
        }
    }

    /// The path of the role's log file, relative to the deployment base
    /// directory.
    pub open spec fn spec_log_path(self) -> Seq<char> {
        match self {
            Role::JdClient => "stratum/roles/jd-client/jd-client.log"@,
            Role::JdServer => "stratum/roles/jd-server/jd-server.log"@,
            Role::Pool => "stratum/roles/pool/pool.log"@,
            Role::Translator => "stratum/roles/translator/translator.log"@,
            Role::Minerd => "minerd.log"@,
        }
    }

    /// The role's unique name.
    pub fn name(&self) -> (r: &'static str)
        ensures
            r@ == self.spec_name(),
    {
        match self {
            Role::JdClient => "jd-client",
            Role::JdServer => "jd-server",
            Role::Pool => "pool",
            Role::Translator => "translator",
            Role::Minerd => "minerd",
        }
    }

    /// The path of the role's log file, relative to the deployment base
    /// directory.
    pub fn log_path(&self) -> (r: &'static str)
        ensures
            r@ == self.spec_log_path(),
    {
        match self {
            Role::JdClient => "stratum/roles/jd-client/jd-client.log",
            Role::JdServer => "stratum/roles/jd-server/jd-server.log",
            Role::Pool => "stratum/roles/pool/pool.log",
            Role::Translator => "stratum/roles/translator/translator.log",
            Role::Minerd => "minerd.log",
        }
    }
}

/// Law: role names are unique keys — distinct roles never share a name.
pub proof fn lemma_role_names_unique(a: Role, b: Role)
    ensures
        a != b ==> a.spec_name() != b.spec_name(),
{
    reveal_strlit("jd-client");
    reveal_strlit("jd-server");
    reveal_strlit("pool");
    reveal_strlit("translator");
    reveal_strlit("minerd");
    assert("jd-client"@.len() == 9);
    assert("jd-server"@.len() == 9);
    assert("pool"@.len() == 4);
    assert("translator"@.len() == 10);
    assert("minerd"@.len() == 6);
    assert("jd-client"@[3] == 'c');
    assert("jd-server"@[3] == 's');
    if a != b {
        assert(a.spec_name() != b.spec_name());
    }
}

/// The path of the template provider's debug log, relative to the
/// deployment base directory. The template provider is tailed but not
/// launched by the supervisor.
pub open spec fn spec_tp_log_path() -> Seq<char> {
    "template-provider/bitcoin-sv2-tp-0.1.19/.bitcoin/testnet4/debug.log"@
}

/// The path of the template provider's debug log.
pub fn tp_log_path() -> (r: &'static str)
    ensures
        r@ == spec_tp_log_path(),
{
    "template-provider/bitcoin-sv2-tp-0.1.19/.bitcoin/testnet4/debug.log"
}

} // verus!
