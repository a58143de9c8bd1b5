//! The application's build and run decisions: which context mode to use,
//! which background tasks exist, in which order the servers are built and
//! started, and which error a failed build reports.

use vstd::prelude::*;
use crate::context::ContextMode;
use crate::reloader::TableReloader;
use crate::refresher::REFRESH_INTERVAL_MS;
use crate::source::TableSource;

verus! {

/// Host that the listeners bind to when none is given.
pub const DEFAULT_HOST: &'static str = "127.0.0.1";

/// The configuration that the core reads.
pub struct Config {
    /// When set, the context is built read-only; when clear, tables can be
    /// loaded and refreshed after the build.
    pub disable_read_only: bool,
    /// Period of the table reloader; no reloader runs without it. A period
    /// of zero is no period.
    pub reload_interval_ms: Option<u64>,
    pub tables: Vec<TableSource>,
}

/// A listener's bound address.
#[derive(Debug, PartialEq, Eq)]
pub struct BoundAddr {
    pub host: String,
    pub port: u16,
}

impl BoundAddr {
    pub fn new(host: String, port: u16) -> (r: Self)
        ensures
            r.host == host,
            r.port == port,
    {
        BoundAddr { host, port }
    }

    pub fn duplicate(&self) -> (r: Self)
        ensures
            r == *self,
    {
        BoundAddr { host: self.host.clone(), port: self.port }
    }
}

#[derive(Debug, PartialEq, Eq)]
pub enum Error {
    BuildHttpServer { source: String },
    BuildFlightSqlServer { source: String },
}

/// The host from the environment, or the default host when it gives none.
pub fn host_or_default(env: Option<String>) -> (r: String)
    ensures
        env is Some ==> r == env->Some_0,
        env is None ==> r@ == DEFAULT_HOST@,
{
    match env {
        Some(h) => h,
        None => DEFAULT_HOST.to_owned(),
    }
}

/// The context mode that the configuration selects.
pub open spec fn mode_of(disable_read_only: bool) -> ContextMode {
    if disable_read_only {
        ContextMode::ReadOnly
    } else {
        ContextMode::Concurrent
    }
}

/// What the build makes, decided from the configuration before any server
/// is built.
pub struct BuildPlan {
    pub mode: ContextMode,
    pub host: String,
    pub table_reloader: Option<TableReloader>,
    pub refresh_interval_ms: Option<u64>,
}

impl BuildPlan {
    /// The concurrent context comes with the background refresher, and with
    /// the table reloader when a reload interval is given; the read-only
    /// context has neither.
    pub fn from_config(config: &Config, host_env: Option<String>) -> (r: Self)
        requires
            mode_of(config.disable_read_only) == ContextMode::Concurrent
                ==> config.reload_interval_ms != Some(0u64),
        ensures
            plan_fits(*config, host_env, r),
    {
        let host = host_or_default(host_env);
        if !config.disable_read_only {
            let table_reloader = match config.reload_interval_ms {
                Some(ms) => Some(TableReloader::new(ms)),
                None => None,
            };
            BuildPlan {
                mode: ContextMode::Concurrent,
                host,
                table_reloader,
                refresh_interval_ms: Some(REFRESH_INTERVAL_MS),
            }
        } else {
            BuildPlan {
                mode: ContextMode::ReadOnly,
                host,
                table_reloader: None,
                refresh_interval_ms: None,
            }
        }
    }

    /// The Postgres server has been built, and the FlightSQL server's build
    /// gave `flight_sql`. A failed FlightSQL build ends the build with its
    /// error, before the HTTP server is built.
    pub fn servers_built(self, postgres_addr: BoundAddr, flight_sql: Result<BoundAddr, String>) -> (r:
        Result<PendingApplication, Error>)
        ensures
            match flight_sql {
                Ok(f) => r is Ok && r->Ok_0 == (PendingApplication {
                    plan: self,
                    postgres_addr,
                    flight_sql_addr: f,
                }),
                Err(e) => r is Err && r->Err_0 == (Error::BuildFlightSqlServer { source: e }),
            },
    {
        match flight_sql {
            Ok(f) => Ok(PendingApplication { plan: self, postgres_addr, flight_sql_addr: f }),
            Err(e) => Err(Error::BuildFlightSqlServer { source: e }),
        }
    }
}

/// What the plan for `config` is: the context mode that the flag selects,
/// the background refresher and the optional table reloader with the
/// concurrent context, neither with the read-only one.
pub open spec fn plan_fits(config: Config, host_env: Option<String>, p: BuildPlan) -> bool {
    &&& p.mode == mode_of(config.disable_read_only)
    &&& env_host(host_env, p.host)
    &&& p.mode == ContextMode::Concurrent ==> p.refresh_interval_ms == Some(REFRESH_INTERVAL_MS)
    &&& p.mode == ContextMode::ReadOnly ==> p.refresh_interval_ms is None
    &&& p.mode == ContextMode::ReadOnly ==> p.table_reloader is None
    &&& p.mode == ContextMode::Concurrent ==> match config.reload_interval_ms {
        Some(ms) => ms > 0 && p.table_reloader == Some(
            TableReloader { reload_interval_ms: ms, loading: None },
        ),
        None => p.table_reloader is None,
    }
}

/// The application that the build makes from `plan`.
pub open spec fn app_fits(plan: BuildPlan, app: Application) -> bool {
    &&& app.mode == plan.mode
    &&& app.table_reloader == plan.table_reloader
    &&& app.refresh_interval_ms == plan.refresh_interval_ms
}

/// The host that `host_or_default` gives for `env`.
pub open spec fn env_host(env: Option<String>, host: String) -> bool {
    match env {
        Some(h) => host == h,
        None => host@ == DEFAULT_HOST@,
    }
}

/// A build whose Postgres and FlightSQL servers are built; the HTTP server
/// comes next.
pub struct PendingApplication {
    pub plan: BuildPlan,
    pub postgres_addr: BoundAddr,
    pub flight_sql_addr: BoundAddr,
}

/// A task that `run_until_stopped` starts.
#[derive(Debug, PartialEq, Eq)]
pub enum ServerTask {
    Postgres(BoundAddr),
    FlightSql(BoundAddr),
    Reloader(TableReloader),
    /// The HTTP server, run last and waited on.
    Http(BoundAddr),
}

/// A built application: the bound addresses of its three listeners and its
/// background tasks.
pub struct Application {
    pub http_addr: BoundAddr,
    pub postgres_addr: BoundAddr,
    pub flight_sql_addr: BoundAddr,
    pub mode: ContextMode,
    pub table_reloader: Option<TableReloader>,
    pub refresh_interval_ms: Option<u64>,
}

/// The tasks of a run, in start order.
pub open spec fn run_tasks(a: Application) -> Seq<ServerTask> {
    seq![ServerTask::Postgres(a.postgres_addr), ServerTask::FlightSql(a.flight_sql_addr)] + match a.table_reloader {
        Some(t) => seq![ServerTask::Reloader(t)],
        None => Seq::<ServerTask>::empty(),
    } + seq![ServerTask::Http(a.http_addr)]
}

impl Application {
    /// Finishes the build with the outcome of the HTTP server's build.
    pub fn build(pending: PendingApplication, http: Result<BoundAddr, String>) -> (r: Result<
        Application,
        Error,
    >)
        ensures
            match http {
                Ok(h) => r is Ok && r->Ok_0 == (Application {
                    http_addr: h,
                    postgres_addr: pending.postgres_addr,
                    flight_sql_addr: pending.flight_sql_addr,
                    mode: pending.plan.mode,
                    table_reloader: pending.plan.table_reloader,
                    refresh_interval_ms: pending.plan.refresh_interval_ms,
                }),
                Err(e) => r is Err && r->Err_0 == (Error::BuildHttpServer { source: e }),
            },
    {
        match http {
            Ok(h) => Ok(
                Application {
                    http_addr: h,
                    postgres_addr: pending.postgres_addr,
                    flight_sql_addr: pending.flight_sql_addr,
                    mode: pending.plan.mode,
                    table_reloader: pending.plan.table_reloader,
                    refresh_interval_ms: pending.plan.refresh_interval_ms,
                },
            ),
            Err(e) => Err(Error::BuildHttpServer { source: e }),
        }
    }

    pub fn http_addr(&self) -> (r: BoundAddr)
        ensures
            r == self.http_addr,
    {
        self.http_addr.duplicate()
    }

    pub fn postgres_addr(&self) -> (r: BoundAddr)
        ensures
            r == self.postgres_addr,
    {
        self.postgres_addr.duplicate()
    }

    pub fn flight_sql_addr(&self) -> (r: BoundAddr)
        ensures
            r == self.flight_sql_addr,
    {
        self.flight_sql_addr.duplicate()
    }

    /// The tasks to start: the Postgres and FlightSQL servers and the table
    /// reloader, if any, in the background, then the HTTP server, which the
    /// application runs on and waits for.
    pub fn run_until_stopped(self) -> (r: Vec<ServerTask>)
        ensures
            r@ == run_tasks(self),
    {
        let mut tasks: Vec<ServerTask> = Vec::new();
        tasks.push(ServerTask::Postgres(self.postgres_addr));
        tasks.push(ServerTask::FlightSql(self.flight_sql_addr));
        match self.table_reloader {
            Some(t) => tasks.push(ServerTask::Reloader(t)),
            None => {},
        }
        tasks.push(ServerTask::Http(self.http_addr));
        proof {
            assert(tasks@ =~= run_tasks(self));
        }
        tasks
    }
}

/// An application in the read-only mode, built from its plan, runs exactly
/// its three servers, with no table reloader and no background refresher.
pub proof fn lemma_read_only_runs_servers_only(
    config: Config,
    host_env: Option<String>,
    plan: BuildPlan,
    app: Application,
)
    requires
        config.disable_read_only,
        plan_fits(config, host_env, plan),
        app_fits(plan, app),
    ensures
        app.refresh_interval_ms is None,
        run_tasks(app) == seq![
            ServerTask::Postgres(app.postgres_addr),
            ServerTask::FlightSql(app.flight_sql_addr),
            ServerTask::Http(app.http_addr),
        ],
{
    assert(run_tasks(app) =~= seq![
        ServerTask::Postgres(app.postgres_addr),
        ServerTask::FlightSql(app.flight_sql_addr),
        ServerTask::Http(app.http_addr),
    ]);
}

/// An application in the concurrent mode with no reload interval has no
/// table reloader among its tasks, but its background refresher runs every
/// refresh interval.
pub proof fn lemma_concurrent_without_interval_only_refreshes(
    config: Config,
    host_env: Option<String>,
    plan: BuildPlan,
    app: Application,
)
    requires
        !config.disable_read_only,
        config.reload_interval_ms is None,
        plan_fits(config, host_env, plan),
        app_fits(plan, app),
    ensures
        app.mode == ContextMode::Concurrent,
        app.refresh_interval_ms == Some(REFRESH_INTERVAL_MS),
        REFRESH_INTERVAL_MS == 1000,
        run_tasks(app) == seq![
            ServerTask::Postgres(app.postgres_addr),
            ServerTask::FlightSql(app.flight_sql_addr),
            ServerTask::Http(app.http_addr),
        ],
{
    assert(run_tasks(app) =~= seq![
        ServerTask::Postgres(app.postgres_addr),
        ServerTask::FlightSql(app.flight_sql_addr),
        ServerTask::Http(app.http_addr),
    ]);
}

} // verus!
