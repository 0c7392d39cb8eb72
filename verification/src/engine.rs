//! The execution-context gate: a typestate wrapper around the shared
//! resource handle (connection pool, LLM client, configuration). The
//! gate has two states, `WithoutContext` and `WithContext`; operations
//! that act on identity-scoped data are defined only on the bound state,
//! so running them without a bound actor is a type error, not a runtime
//! check.
//!
//! The wrapper is generic in the two resource handle types it holds: it
//! only bundles, shares and hands them on, never looks inside them. The
//! surrounding application instantiates them with its pooled database
//! connection handle and its LLM client.

use vstd::prelude::*;

use crate::errors::SDKError;

verus! {

/// Default upper bound on the number of pooled connections.
pub const DEFAULT_MAX_POOL_CONNECTIONS: u32 = 10;

/// Default bound, in seconds, on waiting for a pooled connection.
pub const DEFAULT_ACQUIRE_TIMEOUT_SECS: u64 = 60;

/// The identity under which an operation executes: the authenticated
/// actor and, optionally, the tenant scope it acts in.
#[derive(Clone, Copy)]
pub struct EngineContext {
    pub member_id: uuid::Uuid,
    pub organization_id: Option<uuid::Uuid>,
}

/// Marker implemented by the two states of the execution-context gate.
pub trait EngineState {

}

/// Gate state that carries a bound execution context.
#[derive(Clone, Copy)]
pub struct WithContext {
    pub context: EngineContext,
}

impl EngineState for WithContext {

}

/// Gate state with no execution context bound.
#[derive(Clone, Copy)]
pub struct WithoutContext;

impl EngineState for WithoutContext {

}

/// Immutable configuration captured once at startup.
pub struct SDKConfig {
    pub database_url: String,
    pub llm_api_key: String,
    /// The embedded build version, absent on a non-release build.
    pub version: Option<String>,
    pub max_pool_connections: u32,
    pub acquire_timeout_secs: u64,
}

impl SDKConfig {
    /// Builds a configuration with the default pool sizing: at most ten
    /// connections and a sixty-second acquisition timeout.
    pub fn new(database_url: String, llm_api_key: String, version: Option<String>) -> (r:
        SDKConfig)
        ensures
            r == (SDKConfig {
                database_url,
                llm_api_key,
                version,
                max_pool_connections: DEFAULT_MAX_POOL_CONNECTIONS,
                acquire_timeout_secs: DEFAULT_ACQUIRE_TIMEOUT_SECS,
            }),
    {
        SDKConfig {
            database_url,
            llm_api_key,
            version,
            max_pool_connections: DEFAULT_MAX_POOL_CONNECTIONS,
            acquire_timeout_secs: DEFAULT_ACQUIRE_TIMEOUT_SECS,
        }
    }
}

/// The resource handle together with the state tag. `Pool` is
/// the application's pooled database connection handle and `Llm` its
/// LLM client handle; state transitions move them, so every gate
/// derived from the same origin shares the same underlying resources.
pub struct Engine<Pool, Llm, State: EngineState> {
    pub config: SDKConfig,
    pub db_pool: Pool,
    pub llm_client: Llm,
    pub state: State,
}

/// The engine that binding `ctx` yields: the same resource handle with
/// the context stored in the state tag.
pub open spec fn spec_bound<Pool, Llm>(
    e: Engine<Pool, Llm, WithoutContext>,
    ctx: EngineContext,
) -> Engine<Pool, Llm, WithContext> {
    Engine {
        config: e.config,
        db_pool: e.db_pool,
        llm_client: e.llm_client,
        state: WithContext { context: ctx },
    }
}

/// The engine that unbinding yields: the same resource handle with the
/// context discarded.
pub open spec fn spec_unbound<Pool, Llm>(e: Engine<Pool, Llm, WithContext>) -> Engine<
    Pool,
    Llm,
    WithoutContext,
> {
    Engine { config: e.config, db_pool: e.db_pool, llm_client: e.llm_client, state: WithoutContext }
}

/// Binding a context and unbinding again restores the starting unbound
/// engine exactly: the configuration and the pool and client handles
/// are unchanged, and no context is retained.
pub proof fn lemma_bind_unbind_roundtrip<Pool, Llm>(
    e: Engine<Pool, Llm, WithoutContext>,
    ctx: EngineContext,
)
    ensures
        spec_unbound(spec_bound(e, ctx)) == e,
{
    assert(e.state == WithoutContext);
}

impl<Pool, Llm, AnyState: EngineState> Engine<Pool, Llm, AnyState> {
    /// Returns the embedded build version from configuration, and
    /// `VersionNotFound` exactly when the configuration has none.
    pub fn version(&self) -> (r: Result<String, SDKError>)
        ensures
            match self.config.version {
                Some(v) => r is Ok && r->Ok_0 == v,
                None => r is Err && r->Err_0 is VersionNotFound,
            },
    {
        match &self.config.version {
            Some(v) => Ok(v.clone()),
            None => Err(SDKError::VersionNotFound),
        }
    }
}

impl<Pool, Llm> Engine<Pool, Llm, WithoutContext> {
    /// Assembles an unbound gate around already-constructed resources.
    /// Connecting the pool and building the client are the caller's
    /// concern; this type only bundles and shares them.
    pub fn new_without_context(config: SDKConfig, db_pool: Pool, llm_client: Llm) -> (r: Engine<
        Pool,
        Llm,
        WithoutContext,
    >)
        ensures
            r == (Engine { config, db_pool, llm_client, state: WithoutContext }),
    {
        Engine { config, db_pool, llm_client, state: WithoutContext }
    }

    /// Binds `ctx`, consuming the unbound gate. Always succeeds; the
    /// bound gate carries the same pool and client handles.
    pub fn with_context(self, ctx: &EngineContext) -> (r: Result<
        Engine<Pool, Llm, WithContext>,
        SDKError,
    >)
        ensures
            r is Ok,
            r->Ok_0 == spec_bound(self, *ctx),
    {
        Ok(
            Engine {
                config: self.config,
                db_pool: self.db_pool,
                llm_client: self.llm_client,
                state: WithContext { context: *ctx },
            },
        )
    }

    /// Builds an unbound gate and immediately binds `ctx` to it.
    pub fn new_with_context(ctx: &EngineContext, config: SDKConfig, db_pool: Pool, llm_client: Llm)
        -> (r: Result<Engine<Pool, Llm, WithContext>, SDKError>)
        ensures
            r is Ok,
            r->Ok_0 == spec_bound(
                Engine { config, db_pool, llm_client, state: WithoutContext },
                *ctx,
            ),
    {
        Engine::<Pool, Llm, WithoutContext>::new_without_context(
            config,
            db_pool,
            llm_client,
        ).with_context(ctx)
    }
}

impl<Pool, Llm> Engine<Pool, Llm, WithContext> {
    /// Strips the bound context, yielding an unbound gate over the same
    /// resource handle. The context value is not retained by the
    /// result; the handles move, so nothing is duplicated.
    pub fn without_context(self) -> (r: Engine<Pool, Llm, WithoutContext>)
        ensures
            r == spec_unbound(self),
    {
        Engine {
            config: self.config,
            db_pool: self.db_pool,
            llm_client: self.llm_client,
            state: WithoutContext,
        }
    }
}

} // verus!
