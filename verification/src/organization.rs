//! Tenant initialization: creating the first organization record for an
//! owning actor by writing one well-known settings row keyed by a
//! reserved name. The decision rule lives here, verified; the
//! surrounding application serializes the organization record, asks the
//! store whether the reserved row already exists, performs the write
//! this module plans, and maps driver failures to `SDKError`.

use vstd::prelude::*;

use crate::engine::Engine;
use crate::engine::EngineContext;
use crate::engine::WithContext;
use crate::engine::WithoutContext;
use crate::errors::SDKError;

verus! {

/// The reserved settings name under which the organization record of a
/// tenant is stored. One row per owner may exist under this name.
pub const GLOBAL_ORGANIZATION_SETTINGS_NAME: &'static str = "organization_global_settings";

/// The view of the reserved settings name.
pub open spec fn spec_reserved_settings_name() -> Seq<char> {
    "organization_global_settings"@
}

/// The settings write that establishes a tenant: one row owned by the
/// acting member, keyed by the reserved name, holding the serialized
/// organization record.
pub struct SetOrganizationInput {
    pub owner_id: uuid::Uuid,
    pub name: String,
    pub value: String,
}

/// The tenant-initialization rule. Given whether the reserved settings
/// row already exists for the owner, either refuse the duplicate or
/// plan the single settings write that establishes the tenant.
pub fn plan_initialize_organization(
    ctx: &EngineContext,
    value_serialized: String,
    reserved_row_exists: bool,
) -> (r: Result<SetOrganizationInput, SDKError>)
    ensures
        reserved_row_exists ==> r is Err && r->Err_0 is DuplicateTenant,
        !reserved_row_exists ==> r is Ok && r->Ok_0.owner_id == ctx.member_id
            && r->Ok_0.name@ == spec_reserved_settings_name() && r->Ok_0.value == value_serialized,
{
    if reserved_row_exists {
        Err(SDKError::DuplicateTenant)
    } else {
        proof {
            reveal_strlit("organization_global_settings");
        }
        Ok(
            SetOrganizationInput {
                owner_id: ctx.member_id,
                name: GLOBAL_ORGANIZATION_SETTINGS_NAME.to_owned(),
                value: value_serialized,
            },
        )
    }
}

impl<Pool, Llm> Engine<Pool, Llm, WithoutContext> {
    /// Plans tenant initialization under an explicitly supplied
    /// context. This variant needs no bound actor: it establishes the
    /// very first record for the owner named in `ctx`.
    pub fn initialize_organization(
        &self,
        ctx: &EngineContext,
        value_serialized: String,
        reserved_row_exists: bool,
    ) -> (r: Result<SetOrganizationInput, SDKError>)
        ensures
            reserved_row_exists ==> r is Err && r->Err_0 is DuplicateTenant,
            !reserved_row_exists ==> r is Ok && r->Ok_0.owner_id == ctx.member_id
                && r->Ok_0.name@ == spec_reserved_settings_name() && r->Ok_0.value
                == value_serialized,
    {
        plan_initialize_organization(ctx, value_serialized, reserved_row_exists)
    }
}

impl<Pool, Llm> Engine<Pool, Llm, WithContext> {
    /// Plans tenant initialization under the bound context: the same
    /// rule, with the owner taken from the bound state instead of an
    /// explicit argument.
    pub fn initialize_organization(
        &self,
        value_serialized: String,
        reserved_row_exists: bool,
    ) -> (r: Result<SetOrganizationInput, SDKError>)
        ensures
            reserved_row_exists ==> r is Err && r->Err_0 is DuplicateTenant,
            !reserved_row_exists ==> r is Ok && r->Ok_0.owner_id == self.state.context.member_id
                && r->Ok_0.name@ == spec_reserved_settings_name() && r->Ok_0.value
                == value_serialized,
    {
        let ctx = self.state.context;
        plan_initialize_organization(&ctx, value_serialized, reserved_row_exists)
    }
}

/// The store's visible state for tenant initialization, after a
/// successful write: the owners holding the reserved settings row, with
/// the new owner recorded.
pub open spec fn spec_settings_after_initialize(
    owners: Set<uuid::Uuid>,
    owner: uuid::Uuid,
) -> Set<uuid::Uuid> {
    owners.insert(owner)
}

/// A successful initialization records its owner, so a second
/// initialization for the same owner under the same reserved settings
/// name finds the row present — and, by the contract of
/// `initialize_organization`, is refused as `DuplicateTenant`.
pub proof fn lemma_second_initialize_is_duplicate(owners: Set<uuid::Uuid>, owner: uuid::Uuid)
    ensures
        spec_settings_after_initialize(owners, owner).contains(owner),
{
}

} // verus!
