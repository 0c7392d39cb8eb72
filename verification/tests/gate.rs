use plexo_sdk::engine::Engine;
use plexo_sdk::engine::EngineContext;
use plexo_sdk::engine::SDKConfig;
use plexo_sdk::engine::WithoutContext;
use plexo_sdk::errors::SDKError;
use plexo_sdk::organization::GLOBAL_ORGANIZATION_SETTINGS_NAME;
use plexo_sdk::organization::plan_initialize_organization;

use uuid::Uuid;

fn test_config(version: Option<&str>) -> SDKConfig {
    SDKConfig::new(
        "postgres://localhost:5432/plexo".to_string(),
        "test-llm-key".to_string(),
        version.map(|v| v.to_string()),
    )
}

fn test_context() -> EngineContext {
    EngineContext {
        member_id: Uuid::from_u128(0x11112222333344445555666677778888),
        organization_id: Some(Uuid::from_u128(42)),
    }
}

#[test]
fn bind_unbind_preserves_resources() {
    let config = test_config(Some("0.1.0"));
    let engine: Engine<u64, String, WithoutContext> =
        Engine::new_without_context(config, 7, "llm".to_string());
    let ctx = test_context();

    let bound = engine.with_context(&ctx).expect("bind always succeeds");
    assert_eq!(bound.state.context.member_id, ctx.member_id);
    assert_eq!(bound.state.context.organization_id, ctx.organization_id);

    let unbound = bound.without_context();
    assert_eq!(unbound.config.database_url, "postgres://localhost:5432/plexo");
    assert_eq!(unbound.config.llm_api_key, "test-llm-key");
    assert_eq!(unbound.config.version.as_deref(), Some("0.1.0"));
    assert_eq!(unbound.db_pool, 7);
    assert_eq!(unbound.llm_client, "llm");
}

#[test]
fn bind_accepts_real_llm_client_handle() {
    let llm_config = async_openai::config::OpenAIConfig::default().with_api_key("test-llm-key");
    let llm_client = async_openai::Client::with_config(llm_config);
    let engine = Engine::new_without_context(test_config(None), 0u8, llm_client);
    let bound = engine.with_context(&test_context()).expect("bind always succeeds");
    let _unbound = bound.without_context();
}

#[test]
fn config_defaults_for_pool_sizing() {
    let config = test_config(None);
    assert_eq!(config.max_pool_connections, 10);
    assert_eq!(config.acquire_timeout_secs, 60);
}

#[test]
fn version_comes_from_configuration() {
    let engine: Engine<u64, u64, WithoutContext> =
        Engine::new_without_context(test_config(Some("1.2.3")), 0, 0);
    assert_eq!(engine.version().expect("version is configured"), "1.2.3");
}

#[test]
fn version_not_found_without_embedded_version() {
    let engine: Engine<u64, u64, WithoutContext> =
        Engine::new_without_context(test_config(None), 0, 0);
    assert!(matches!(engine.version(), Err(SDKError::VersionNotFound)));
}

#[test]
fn new_with_context_binds_in_one_step() {
    let ctx = test_context();
    let bound = Engine::new_with_context(&ctx, test_config(None), 3u32, 4u32)
        .expect("binding always succeeds");
    assert_eq!(bound.state.context.member_id, ctx.member_id);
    assert_eq!(bound.db_pool, 3);
    assert_eq!(bound.llm_client, 4);
}

#[test]
fn initialize_organization_plans_reserved_row() {
    let ctx = test_context();
    let engine: Engine<u64, u64, WithoutContext> =
        Engine::new_without_context(test_config(None), 0, 0);
    let planned = engine
        .initialize_organization(&ctx, "{\"name\":\"acme\"}".to_string(), false)
        .expect("first initialization is planned");
    assert_eq!(planned.owner_id, ctx.member_id);
    assert_eq!(planned.name, GLOBAL_ORGANIZATION_SETTINGS_NAME);
    assert_eq!(planned.value, "{\"name\":\"acme\"}");
}

#[test]
fn second_initialize_for_same_owner_is_duplicate() {
    let ctx = test_context();
    let first = plan_initialize_organization(&ctx, "{}".to_string(), false);
    assert!(first.is_ok());
    let second = plan_initialize_organization(&ctx, "{}".to_string(), true);
    assert!(matches!(second, Err(SDKError::DuplicateTenant)));
}

#[test]
fn bound_initialize_uses_stored_context() {
    let ctx = test_context();
    let bound = Engine::new_with_context(&ctx, test_config(None), 0u8, 0u8)
        .expect("binding always succeeds");
    let planned = bound
        .initialize_organization("{}".to_string(), false)
        .expect("first initialization is planned");
    assert_eq!(planned.owner_id, ctx.member_id);

    let refused = bound.initialize_organization("{}".to_string(), true);
    assert!(matches!(refused, Err(SDKError::DuplicateTenant)));
}

#[test]
fn error_kinds_are_stable() {
    assert_eq!(SDKError::VersionNotFound.kind(), "version not found");
    assert_eq!(SDKError::DuplicateTenant.kind(), "duplicate tenant");
    assert_eq!(SDKError::PoolTimeout.kind(), "pool timeout");
    assert_eq!(SDKError::QueryError("boom".to_string()).kind(), "query error");
    assert_eq!(SDKError::MigrationError("boom".to_string()).kind(), "migration error");
    assert_eq!(SDKError::SerializationError("boom".to_string()).kind(), "serialization error");
}
