//! Abstract model of the remote platform's state.
//!
//! The platform owns its resources; the orchestrator only reads and patches
//! them through remote calls. This model records what those calls leave
//! behind, just finely enough to state how the orchestrator's mutating
//! calls compose: reads change nothing, each blind patch overwrites its
//! target, a create takes effect only where the application was absent and
//! an update only where it was present (on the real platform the rejected
//! call fails without effect).

use vstd::prelude::*;
use crate::config::ConfigView;
use crate::orchestrator::ActionView;
use crate::requests::{
    SystemConfigurationPatchView, TenantPatchView, ApplicationDefinitionView,
    desired_system_patch, desired_tenant_patch,
};

verus! {

/// The platform's state, as far as the orchestrator's calls touch it:
/// the last system patch applied, the set of registered usernames, the
/// last patch applied to each tenant, and the definition of each
/// application.
#[verifier::ext_equal]
pub struct PlatformModel {
    pub system: Option<SystemConfigurationPatchView>,
    pub users: Set<Seq<char>>,
    pub tenants: Map<Seq<char>, TenantPatchView>,
    pub applications: Map<Seq<char>, ApplicationDefinitionView>,
}

/// What one call leaves of the platform's state. Reads leave it unchanged.
pub open spec fn apply_action(m: PlatformModel, a: ActionView) -> PlatformModel {
    match a {
        ActionView::PatchSystemConfiguration { patch } => PlatformModel {
            system: Some(patch),
            ..m
        },
        ActionView::FindUserByUsername { .. } => m,
        ActionView::ListApplications => m,
        ActionView::GetApplication { .. } => m,
        ActionView::RegisterUser { registration } => PlatformModel {
            users: m.users.insert(registration.username),
            ..m
        },
        ActionView::PatchTenant { tenant_id, patch } => PlatformModel {
            tenants: m.tenants.insert(tenant_id, patch),
            ..m
        },
        ActionView::CreateApplication { application_id, definition } => {
            if m.applications.dom().contains(application_id) {
                m
            } else {
                PlatformModel { applications: m.applications.insert(application_id, definition), ..m }
            }
        },
        ActionView::UpdateApplication { application_id, definition } => {
            if m.applications.dom().contains(application_id) {
                PlatformModel { applications: m.applications.insert(application_id, definition), ..m }
            } else {
                m
            }
        },
    }
}

/// The system patch call the first stage issues for a configuration.
pub open spec fn system_patch_action(c: ConfigView) -> ActionView {
    ActionView::PatchSystemConfiguration { patch: desired_system_patch(c) }
}

/// The tenant patch call the third stage issues for a configuration and a
/// tenant identifier.
pub open spec fn tenant_patch_action(c: ConfigView, tid: Seq<char>) -> ActionView {
    ActionView::PatchTenant { tenant_id: tid, patch: desired_tenant_patch(c) }
}

/// Law: a system patch or a tenant patch is a blind patch — applying the
/// same call twice leaves the platform exactly as applying it once.
pub proof fn lemma_patch_twice_is_patch_once(m: PlatformModel, a: ActionView)
    requires
        a is PatchSystemConfiguration || a is PatchTenant,
    ensures
        apply_action(apply_action(m, a), a) == apply_action(m, a),
{
    match a {
        ActionView::PatchSystemConfiguration { patch } => {
            assert(apply_action(apply_action(m, a), a) =~= apply_action(m, a));
        },
        ActionView::PatchTenant { tenant_id, patch } => {
            assert(m.tenants.insert(tenant_id, patch).insert(tenant_id, patch)
                =~= m.tenants.insert(tenant_id, patch));
            assert(apply_action(apply_action(m, a), a) =~= apply_action(m, a));
        },
        _ => {},
    }
}

/// Law: the first and third stages are idempotent — running either blind
/// patch of one configuration twice produces the same platform state as
/// running it once, whatever the platform held before.
pub proof fn lemma_blind_stages_idempotent(m: PlatformModel, c: ConfigView, tid: Seq<char>)
    ensures
        apply_action(apply_action(m, system_patch_action(c)), system_patch_action(c))
            == apply_action(m, system_patch_action(c)),
        apply_action(apply_action(m, tenant_patch_action(c, tid)), tenant_patch_action(c, tid))
            == apply_action(m, tenant_patch_action(c, tid)),
{
    lemma_patch_twice_is_patch_once(m, system_patch_action(c));
    lemma_patch_twice_is_patch_once(m, tenant_patch_action(c, tid));
}

} // verus!
