//! What a reader may do, and what the deployment has switched on.

use vstd::prelude::*;

verus! {

/// A permission that a reader can hold.
#[derive(Debug, Clone, Copy, PartialEq, Eq, Structural)]
pub enum Permission {
    SystemStats,
    CatalogueRead,
    CatalogueDelete,
    ScansRead,
    ScansRun,
    ProvidersRead,
    ProvidersCreate,
    ProvidersWrite,
    ProvidersState,
    ProvidersDelete,
    ProvidersTest,
    MergeRead,
    MergeWrite,
    MergeRevert,
    MergeAudit,
    SyncAdminRead,
    SyncAudit,
    SyncRevert,
    RecsysRead,
    RecsysWrite,
    UsersRead,
    UsersDelete,
    FlagsRead,
    FlagsWrite,
    PrivacyRead,
    PrivacyWrite,
    PrivacyExport,
    AuditRead,
}

/// A feature that a deployment can switch on.
#[derive(Debug, Clone, Copy, PartialEq, Eq, Structural)]
pub enum Feature {
    AdminStats,
    AdminCatalogue,
    AdminProviders,
    AdminAdapterTest,
    AdminRecommendations,
    AdminSync,
    AdminUsers,
    AdminFeatureFlags,
    AdminAudit,
    ScanningManual,
    ScanningMergeQueue,
    PrivacyRequests,
}

/// What is known of the reader's permissions and of the deployment's features.
#[derive(Debug, PartialEq, Eq)]
pub struct Capabilities {
    /// Whether the answer has arrived; until then nothing is known.
    pub ready: bool,
    pub permissions: Vec<Permission>,
    pub features: Vec<Feature>,
}

impl Capabilities {
    /// Whether the reader holds a permission.
    pub open spec fn may(&self, permission: Permission) -> bool {
        self.permissions@.contains(permission)
    }

    /// Whether a feature is switched on.
    pub open spec fn has(&self, feature: Feature) -> bool {
        self.features@.contains(feature)
    }

    /// Whether the reader holds a permission.
    pub fn can(&self, permission: Permission) -> (r: bool)
        ensures
            r == self.may(permission),
    {
        let mut i: usize = 0;
        while i < self.permissions.len()
            invariant
                i <= self.permissions.len(),
                forall|j: int| 0 <= j < i ==> self.permissions@[j] != permission,
            decreases self.permissions.len() - i,
        {
            if self.permissions[i] == permission {
                return true;
            }
            i = i + 1;
        }
        false
    }

    /// Whether a feature is switched on.
    pub fn has_feature(&self, feature: Feature) -> (r: bool)
        ensures
            r == self.has(feature),
    {
        let mut i: usize = 0;
        while i < self.features.len()
            invariant
                i <= self.features.len(),
                forall|j: int| 0 <= j < i ==> self.features@[j] != feature,
            decreases self.features.len() - i,
        {
            if self.features[i] == feature {
                return true;
            }
            i = i + 1;
        }
        false
    }
}

} // verus!
