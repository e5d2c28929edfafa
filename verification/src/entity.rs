//! The console's entities: their addresses, who may open them, and the rail.

use crate::access::{Capabilities, Feature, Permission};
use crate::rows;
use crate::text;
use vstd::prelude::*;

verus! {

broadcast use vstd::string::group_string_axioms;

/// The console's entities, in rail order. An entity's slug is its address.
#[derive(Debug, Clone, Copy, PartialEq, Eq, Structural)]
pub enum ConsoleEntity {
    Overview,
    Catalogue,
    Merge,
    Decisions,
    Recommendations,
    Providers,
    Scans,
    Solver,
    AdapterTest,
    Users,
    Sync,
    Flags,
    Privacy,
    Audit,
}

/// The glyphs of the rail.
#[derive(Debug, Clone, Copy, PartialEq, Eq, Structural)]
pub enum Icon {
    Dashboard,
    MenuBook,
    Merge,
    Gavel,
    Tune,
    Layers,
    Radar,
    ShieldLock,
    Code,
    Group,
    CloudSync,
    Flag,
    Person,
    History,
}

/// A slug that names no entity. A link to one lands the operator in the console
/// rather than on an error page.
#[derive(Debug, Clone, Copy, PartialEq, Eq, Structural)]
pub struct UnknownEntity;

impl UnknownEntity {
    /// What is wrong with the slug.
    pub fn to_string(&self) -> (r: String)
        ensures
            r@ == "no console entity by that name"@,
    {
        "no console entity by that name".to_owned()
    }
}

/// The rail's groups.
#[derive(Debug, Clone, Copy, PartialEq, Eq, Structural)]
pub enum RailGroup {
    System,
    Catalogue,
    Pipeline,
    People,
}

impl RailGroup {
    /// Every group, in rail order.
    pub const ALL: [RailGroup; 4] = [
        RailGroup::System,
        RailGroup::Catalogue,
        RailGroup::Pipeline,
        RailGroup::People,
    ];

    /// The entities that a group holds, in rail order.
    pub open spec fn members(self) -> Seq<ConsoleEntity> {
        match self {
            RailGroup::System => seq![ConsoleEntity::Overview],
            RailGroup::Catalogue => seq![
                ConsoleEntity::Catalogue,
                ConsoleEntity::Merge,
                ConsoleEntity::Decisions,
                ConsoleEntity::Recommendations,
            ],
            RailGroup::Pipeline => seq![
                ConsoleEntity::Providers,
                ConsoleEntity::Scans,
                ConsoleEntity::Solver,
                ConsoleEntity::AdapterTest,
            ],
            RailGroup::People => seq![
                ConsoleEntity::Users,
                ConsoleEntity::Sync,
                ConsoleEntity::Flags,
                ConsoleEntity::Privacy,
                ConsoleEntity::Audit,
            ],
        }
    }

    /// The catalogue key of a group's heading.
    pub fn label_key(self) -> (r: &'static str)
        ensures
            r@ == self.heading(),
    {
        match self {
            RailGroup::System => "console.group.system",
            RailGroup::Catalogue => "console.group.catalogue",
            RailGroup::Pipeline => "console.group.pipeline",
            RailGroup::People => "console.group.people",
        }
    }

    /// The catalogue key of a group's heading.
    pub open spec fn heading(self) -> Seq<char> {
        match self {
            RailGroup::System => "console.group.system"@,
            RailGroup::Catalogue => "console.group.catalogue"@,
            RailGroup::Pipeline => "console.group.pipeline"@,
            RailGroup::People => "console.group.people"@,
        }
    }

    /// The entities that a group holds, in rail order.
    pub fn entities(self) -> (r: Vec<ConsoleEntity>)
        ensures
            r@ == self.members(),
    {
        let r = match self {
            RailGroup::System => vec![ConsoleEntity::Overview],
            RailGroup::Catalogue => vec![
                ConsoleEntity::Catalogue,
                ConsoleEntity::Merge,
                ConsoleEntity::Decisions,
                ConsoleEntity::Recommendations,
            ],
            RailGroup::Pipeline => vec![
                ConsoleEntity::Providers,
                ConsoleEntity::Scans,
                ConsoleEntity::Solver,
                ConsoleEntity::AdapterTest,
            ],
            RailGroup::People => vec![
                ConsoleEntity::Users,
                ConsoleEntity::Sync,
                ConsoleEntity::Flags,
                ConsoleEntity::Privacy,
                ConsoleEntity::Audit,
            ],
        };
        assert(r@ =~= self.members());
        r
    }
}

impl ConsoleEntity {
    /// Every entity, in rail order.
    pub const ALL: [ConsoleEntity; 14] = [
        ConsoleEntity::Overview,
        ConsoleEntity::Catalogue,
        ConsoleEntity::Merge,
        ConsoleEntity::Decisions,
        ConsoleEntity::Recommendations,
        ConsoleEntity::Providers,
        ConsoleEntity::Scans,
        ConsoleEntity::Solver,
        ConsoleEntity::AdapterTest,
        ConsoleEntity::Users,
        ConsoleEntity::Sync,
        ConsoleEntity::Flags,
        ConsoleEntity::Privacy,
        ConsoleEntity::Audit,
    ];

    /// The slug that is the entity's address.
    pub open spec fn slug_text(self) -> Seq<char> {
        match self {
            ConsoleEntity::Overview => "overview"@,
            ConsoleEntity::Catalogue => "catalogue"@,
            ConsoleEntity::Merge => "merge-queue"@,
            ConsoleEntity::Decisions => "decisions"@,
            ConsoleEntity::Recommendations => "recommendations"@,
            ConsoleEntity::Providers => "providers"@,
            ConsoleEntity::Scans => "scan-runs"@,
            ConsoleEntity::Solver => "solver"@,
            ConsoleEntity::AdapterTest => "adapter-test"@,
            ConsoleEntity::Users => "users"@,
            ConsoleEntity::Sync => "sync-links"@,
            ConsoleEntity::Flags => "feature-flags"@,
            ConsoleEntity::Privacy => "privacy"@,
            ConsoleEntity::Audit => "audit"@,
        }
    }

    /// The entity that a slug is the address of.
    pub open spec fn addressed_by(slug: Seq<char>) -> Option<ConsoleEntity> {
        if slug == "overview"@ {
            Some(ConsoleEntity::Overview)
        } else if slug == "catalogue"@ {
            Some(ConsoleEntity::Catalogue)
        } else if slug == "merge-queue"@ {
            Some(ConsoleEntity::Merge)
        } else if slug == "decisions"@ {
            Some(ConsoleEntity::Decisions)
        } else if slug == "recommendations"@ {
            Some(ConsoleEntity::Recommendations)
        } else if slug == "providers"@ {
            Some(ConsoleEntity::Providers)
        } else if slug == "scan-runs"@ {
            Some(ConsoleEntity::Scans)
        } else if slug == "solver"@ {
            Some(ConsoleEntity::Solver)
        } else if slug == "adapter-test"@ {
            Some(ConsoleEntity::AdapterTest)
        } else if slug == "users"@ {
            Some(ConsoleEntity::Users)
        } else if slug == "sync-links"@ {
            Some(ConsoleEntity::Sync)
        } else if slug == "feature-flags"@ {
            Some(ConsoleEntity::Flags)
        } else if slug == "privacy"@ {
            Some(ConsoleEntity::Privacy)
        } else if slug == "audit"@ {
            Some(ConsoleEntity::Audit)
        } else {
            None
        }
    }

    /// The permission that opens the entity, and the feature that has to be on.
    pub open spec fn gate(self) -> (Permission, Feature) {
        match self {
            ConsoleEntity::Overview => (Permission::SystemStats, Feature::AdminStats),
            ConsoleEntity::Catalogue => (Permission::CatalogueRead, Feature::AdminCatalogue),
            ConsoleEntity::Merge => (Permission::MergeRead, Feature::ScanningMergeQueue),
            ConsoleEntity::Decisions => (Permission::MergeAudit, Feature::AdminAudit),
            ConsoleEntity::Recommendations => (
                Permission::RecsysRead,
                Feature::AdminRecommendations,
            ),
            ConsoleEntity::Providers => (Permission::ProvidersRead, Feature::AdminProviders),
            ConsoleEntity::Scans => (Permission::ScansRead, Feature::ScanningManual),
            ConsoleEntity::Solver => (Permission::ProvidersRead, Feature::AdminProviders),
            ConsoleEntity::AdapterTest => (Permission::ProvidersTest, Feature::AdminAdapterTest),
            ConsoleEntity::Users => (Permission::UsersRead, Feature::AdminUsers),
            ConsoleEntity::Sync => (Permission::SyncAdminRead, Feature::AdminSync),
            ConsoleEntity::Flags => (Permission::FlagsRead, Feature::AdminFeatureFlags),
            ConsoleEntity::Privacy => (Permission::PrivacyRead, Feature::PrivacyRequests),
            ConsoleEntity::Audit => (Permission::AuditRead, Feature::AdminAudit),
        }
    }

    /// Whether the entity is offered to a reader. The two journals of
    /// [`ConsoleEntity::Decisions`] have a permission each, and either opens it.
    pub open spec fn is_open_to(self, caps: Capabilities) -> bool {
        &&& caps.may(self.gate().0) || (self == ConsoleEntity::Decisions && caps.may(
            Permission::SyncAudit,
        ))
        &&& caps.has(self.gate().1)
    }

    /// The catalogue key of the entity's rail label.
    pub fn label_key(self) -> (r: &'static str)
        ensures
            r@ == (match self {
                ConsoleEntity::Overview => "console.tab.overview"@,
                ConsoleEntity::Catalogue => "console.tab.catalogue"@,
                ConsoleEntity::Merge => "console.tab.merge"@,
                ConsoleEntity::Decisions => "console.tab.decisions"@,
                ConsoleEntity::Recommendations => "console.tab.recommendations"@,
                ConsoleEntity::Providers => "console.tab.providers"@,
                ConsoleEntity::Scans => "console.tab.liveScans"@,
                ConsoleEntity::Solver => "console.tab.solver"@,
                ConsoleEntity::AdapterTest => "console.tab.adapterTest"@,
                ConsoleEntity::Users => "console.tab.users"@,
                ConsoleEntity::Sync => "console.tab.sync"@,
                ConsoleEntity::Flags => "console.tab.flags"@,
                ConsoleEntity::Privacy => "console.tab.privacy"@,
                ConsoleEntity::Audit => "console.tab.audit"@,
            }),
    {
        match self {
            ConsoleEntity::Overview => "console.tab.overview",
            ConsoleEntity::Catalogue => "console.tab.catalogue",
            ConsoleEntity::Merge => "console.tab.merge",
            ConsoleEntity::Decisions => "console.tab.decisions",
            ConsoleEntity::Recommendations => "console.tab.recommendations",
            ConsoleEntity::Providers => "console.tab.providers",
            ConsoleEntity::Scans => "console.tab.liveScans",
            ConsoleEntity::Solver => "console.tab.solver",
            ConsoleEntity::AdapterTest => "console.tab.adapterTest",
            ConsoleEntity::Users => "console.tab.users",
            ConsoleEntity::Sync => "console.tab.sync",
            ConsoleEntity::Flags => "console.tab.flags",
            ConsoleEntity::Privacy => "console.tab.privacy",
            ConsoleEntity::Audit => "console.tab.audit",
        }
    }

    /// The entity's rail glyph.
    pub fn icon(self) -> (r: Icon)
        ensures
            r == (match self {
                ConsoleEntity::Overview => Icon::Dashboard,
                ConsoleEntity::Catalogue => Icon::MenuBook,
                ConsoleEntity::Merge => Icon::Merge,
                ConsoleEntity::Decisions => Icon::Gavel,
                ConsoleEntity::Recommendations => Icon::Tune,
                ConsoleEntity::Providers => Icon::Layers,
                ConsoleEntity::Scans => Icon::Radar,
                ConsoleEntity::Solver => Icon::ShieldLock,
                ConsoleEntity::AdapterTest => Icon::Code,
                ConsoleEntity::Users => Icon::Group,
                ConsoleEntity::Sync => Icon::CloudSync,
                ConsoleEntity::Flags => Icon::Flag,
                ConsoleEntity::Privacy => Icon::Person,
                ConsoleEntity::Audit => Icon::History,
            }),
    {
        match self {
            ConsoleEntity::Overview => Icon::Dashboard,
            ConsoleEntity::Catalogue => Icon::MenuBook,
            ConsoleEntity::Merge => Icon::Merge,
            ConsoleEntity::Decisions => Icon::Gavel,
            ConsoleEntity::Recommendations => Icon::Tune,
            ConsoleEntity::Providers => Icon::Layers,
            ConsoleEntity::Scans => Icon::Radar,
            ConsoleEntity::Solver => Icon::ShieldLock,
            ConsoleEntity::AdapterTest => Icon::Code,
            ConsoleEntity::Users => Icon::Group,
            ConsoleEntity::Sync => Icon::CloudSync,
            ConsoleEntity::Flags => Icon::Flag,
            ConsoleEntity::Privacy => Icon::Person,
            ConsoleEntity::Audit => Icon::History,
        }
    }

    /// The entity's address, and the breadcrumb beside the wordmark.
    pub fn slug(self) -> (r: &'static str)
        ensures
            r@ == self.slug_text(),
    {
        match self {
            ConsoleEntity::Overview => "overview",
            ConsoleEntity::Catalogue => "catalogue",
            ConsoleEntity::Merge => "merge-queue",
            ConsoleEntity::Decisions => "decisions",
            ConsoleEntity::Recommendations => "recommendations",
            ConsoleEntity::Providers => "providers",
            ConsoleEntity::Scans => "scan-runs",
            ConsoleEntity::Solver => "solver",
            ConsoleEntity::AdapterTest => "adapter-test",
            ConsoleEntity::Users => "users",
            ConsoleEntity::Sync => "sync-links",
            ConsoleEntity::Flags => "feature-flags",
            ConsoleEntity::Privacy => "privacy",
            ConsoleEntity::Audit => "audit",
        }
    }

    /// The entity as it stands in an address.
    pub fn to_string(&self) -> (r: String)
        ensures
            r@ == self.slug_text(),
    {
        self.slug().to_owned()
    }

    /// The permission that opens the entity, and the feature that has to be on.
    pub fn requires_of(self) -> (r: (Permission, Feature))
        ensures
            r == self.gate(),
    {
        match self {
            ConsoleEntity::Overview => (Permission::SystemStats, Feature::AdminStats),
            ConsoleEntity::Catalogue => (Permission::CatalogueRead, Feature::AdminCatalogue),
            ConsoleEntity::Merge => (Permission::MergeRead, Feature::ScanningMergeQueue),
            ConsoleEntity::Decisions => (Permission::MergeAudit, Feature::AdminAudit),
            ConsoleEntity::Recommendations => (
                Permission::RecsysRead,
                Feature::AdminRecommendations,
            ),
            ConsoleEntity::Providers => (Permission::ProvidersRead, Feature::AdminProviders),
            ConsoleEntity::Scans => (Permission::ScansRead, Feature::ScanningManual),
            ConsoleEntity::Solver => (Permission::ProvidersRead, Feature::AdminProviders),
            ConsoleEntity::AdapterTest => (Permission::ProvidersTest, Feature::AdminAdapterTest),
            ConsoleEntity::Users => (Permission::UsersRead, Feature::AdminUsers),
            ConsoleEntity::Sync => (Permission::SyncAdminRead, Feature::AdminSync),
            ConsoleEntity::Flags => (Permission::FlagsRead, Feature::AdminFeatureFlags),
            ConsoleEntity::Privacy => (Permission::PrivacyRead, Feature::PrivacyRequests),
            ConsoleEntity::Audit => (Permission::AuditRead, Feature::AdminAudit),
        }
    }

    /// Whether the reader is offered the entity at all.
    pub fn is_visible(self, caps: &Capabilities) -> (r: bool)
        ensures
            r == self.is_open_to(*caps),
    {
        let (permission, feature) = self.requires_of();
        let permitted = caps.can(permission) || (self == ConsoleEntity::Decisions && caps.can(
            Permission::SyncAudit,
        ));
        permitted && caps.has_feature(feature)
    }

    /// Whether the entity owns both the list and the inspector pane.
    pub fn is_master_detail(self) -> (r: bool)
        ensures
            r == (self == ConsoleEntity::Providers || self == ConsoleEntity::Users),
    {
        matches!(self, ConsoleEntity::Providers | ConsoleEntity::Users)
    }

    /// Whether the entity refetches from the shared tick. Work surfaces opt out: a
    /// background refetch landing on a half-filled form would discard it.
    pub fn auto_refreshes(self) -> (r: bool)
        ensures
            r == !(self == ConsoleEntity::Providers || self == ConsoleEntity::Users || self
                == ConsoleEntity::Flags || self == ConsoleEntity::Recommendations || self
                == ConsoleEntity::Catalogue),
    {
        !matches!(self, ConsoleEntity::Providers | ConsoleEntity::Users | ConsoleEntity::Flags
            | ConsoleEntity::Recommendations | ConsoleEntity::Catalogue)
    }

    /// Reads an address.
    ///
    /// # Errors
    ///
    /// [`UnknownEntity`] for a slug that is no entity's.
    pub fn parse(slug: &str) -> (r: Result<ConsoleEntity, UnknownEntity>)
        ensures
            r == (match ConsoleEntity::addressed_by(slug@) {
                Some(entity) => Ok::<ConsoleEntity, UnknownEntity>(entity),
                None => Err(UnknownEntity),
            }),
    {
        if text::same(slug, "overview") {
            Ok(ConsoleEntity::Overview)
        } else if text::same(slug, "catalogue") {
            Ok(ConsoleEntity::Catalogue)
        } else if text::same(slug, "merge-queue") {
            Ok(ConsoleEntity::Merge)
        } else if text::same(slug, "decisions") {
            Ok(ConsoleEntity::Decisions)
        } else if text::same(slug, "recommendations") {
            Ok(ConsoleEntity::Recommendations)
        } else if text::same(slug, "providers") {
            Ok(ConsoleEntity::Providers)
        } else if text::same(slug, "scan-runs") {
            Ok(ConsoleEntity::Scans)
        } else if text::same(slug, "solver") {
            Ok(ConsoleEntity::Solver)
        } else if text::same(slug, "adapter-test") {
            Ok(ConsoleEntity::AdapterTest)
        } else if text::same(slug, "users") {
            Ok(ConsoleEntity::Users)
        } else if text::same(slug, "sync-links") {
            Ok(ConsoleEntity::Sync)
        } else if text::same(slug, "feature-flags") {
            Ok(ConsoleEntity::Flags)
        } else if text::same(slug, "privacy") {
            Ok(ConsoleEntity::Privacy)
        } else if text::same(slug, "audit") {
            Ok(ConsoleEntity::Audit)
        } else {
            Err(UnknownEntity)
        }
    }

    /// Every entity's slug is an address that leads back to it.
    pub proof fn slug_reads_back(self)
        ensures
            ConsoleEntity::addressed_by(self.slug_text()) == Some(self),
    {
        reveal_strlit("overview");
        reveal_strlit("catalogue");
        reveal_strlit("merge-queue");
        reveal_strlit("decisions");
        reveal_strlit("recommendations");
        reveal_strlit("providers");
        reveal_strlit("scan-runs");
        reveal_strlit("solver");
        reveal_strlit("adapter-test");
        reveal_strlit("users");
        reveal_strlit("sync-links");
        reveal_strlit("feature-flags");
        reveal_strlit("privacy");
        reveal_strlit("audit");
        assert("overview"@.len() == 8);
        assert("catalogue"@.len() == 9);
        assert("catalogue"@[0] == 'c');
        assert("merge-queue"@.len() == 11);
        assert("decisions"@.len() == 9);
        assert("decisions"@[0] == 'd');
        assert("recommendations"@.len() == 15);
        assert("providers"@.len() == 9);
        assert("providers"@[0] == 'p');
        assert("scan-runs"@.len() == 9);
        assert("scan-runs"@[0] == 's');
        assert("solver"@.len() == 6);
        assert("adapter-test"@.len() == 12);
        assert("users"@.len() == 5);
        assert("users"@[0] == 'u');
        assert("sync-links"@.len() == 10);
        assert("feature-flags"@.len() == 13);
        assert("privacy"@.len() == 7);
        assert("audit"@.len() == 5);
        assert("audit"@[0] == 'a');
    }

    /// Every entity is listed, once, in rail order.
    pub proof fn all_lists_each_once(self)
        ensures
            ConsoleEntity::ALL@.contains(self),
            ConsoleEntity::ALL@.no_duplicates(),
            ConsoleEntity::ALL@ == RailGroup::System.members() + RailGroup::Catalogue.members()
                + RailGroup::Pipeline.members() + RailGroup::People.members(),
    {
        let all = ConsoleEntity::ALL@;
        match self {
            ConsoleEntity::Overview => assert(all[0] == self),
            ConsoleEntity::Catalogue => assert(all[1] == self),
            ConsoleEntity::Merge => assert(all[2] == self),
            ConsoleEntity::Decisions => assert(all[3] == self),
            ConsoleEntity::Recommendations => assert(all[4] == self),
            ConsoleEntity::Providers => assert(all[5] == self),
            ConsoleEntity::Scans => assert(all[6] == self),
            ConsoleEntity::Solver => assert(all[7] == self),
            ConsoleEntity::AdapterTest => assert(all[8] == self),
            ConsoleEntity::Users => assert(all[9] == self),
            ConsoleEntity::Sync => assert(all[10] == self),
            ConsoleEntity::Flags => assert(all[11] == self),
            ConsoleEntity::Privacy => assert(all[12] == self),
            ConsoleEntity::Audit => assert(all[13] == self),
        }
        assert(all =~= RailGroup::System.members() + RailGroup::Catalogue.members()
            + RailGroup::Pipeline.members() + RailGroup::People.members());
    }
}

impl std::str::FromStr for ConsoleEntity {
    type Err = UnknownEntity;

    fn from_str(slug: &str) -> (r: Result<Self, UnknownEntity>)
        ensures
            r == (match ConsoleEntity::addressed_by(slug@) {
                Some(entity) => Ok::<ConsoleEntity, UnknownEntity>(entity),
                None => Err(UnknownEntity),
            }),
    {
        ConsoleEntity::parse(slug)
    }
}

/// The first of some entities that is open to a reader.
pub open spec fn first_open(list: Seq<ConsoleEntity>, caps: Capabilities) -> Option<ConsoleEntity>
    decreases list.len(),
{
    if list.len() == 0 {
        None
    } else if list[0].is_open_to(caps) {
        Some(list[0])
    } else {
        first_open(list.drop_first(), caps)
    }
}

/// Where the way into the console leads: where the operator left off, if they may
/// still see it, else the first entity that they may.
pub open spec fn landing(caps: Capabilities, stored: Option<ConsoleEntity>) -> Option<
    ConsoleEntity,
> {
    if stored is Some && stored->0.is_open_to(caps) {
        stored
    } else {
        first_open(ConsoleEntity::ALL@, caps)
    }
}

/// Where the way into the console leads.
pub fn landing_entity(caps: &Capabilities, stored: Option<ConsoleEntity>) -> (r: Option<
    ConsoleEntity,
>)
    ensures
        r == landing(*caps, stored),
{
    if let Some(entity) = stored {
        if entity.is_visible(caps) {
            return Some(entity);
        }
    }
    let all = ConsoleEntity::ALL;
    let mut i: usize = 0;
    assert(all@.skip(0) == all@);
    while i < all.len()
        invariant
            i <= all@.len(),
            all@ == ConsoleEntity::ALL@,
            !(stored is Some && stored->0.is_open_to(*caps)),
            first_open(all@, *caps) == first_open(all@.skip(i as int), *caps),
        decreases all.len() - i,
    {
        if all[i].is_visible(caps) {
            return Some(all[i]);
        }
        assert(all@.skip(i as int).drop_first() == all@.skip(i + 1));
        i = i + 1;
    }
    None
}

proof fn lemma_first_open(list: Seq<ConsoleEntity>, caps: Capabilities)
    ensures
        match first_open(list, caps) {
            Some(entity) => list.contains(entity) && entity.is_open_to(caps),
            None => forall|i: int| 0 <= i < list.len() ==> !(#[trigger] list[i]).is_open_to(caps),
        },
    decreases list.len(),
{
    if list.len() > 0 && !list[0].is_open_to(caps) {
        let rest = list.drop_first();
        lemma_first_open(rest, caps);
        match first_open(rest, caps) {
            Some(entity) => {
                let i = choose|i: int| 0 <= i < rest.len() && rest[i] == entity;
                assert(list[i + 1] == entity);
            },
            None => {
                assert forall|i: int| 0 <= i < list.len() implies !(#[trigger] list[i]).is_open_to(
                    caps,
                ) by {
                    if i > 0 {
                        assert(list[i] == rest[i - 1]);
                    }
                }
            },
        }
    } else if list.len() > 0 {
        assert(list[0] == first_open(list, caps)->0);
    }
}

/// The way into the console leads to an entity that the reader may see, and leads
/// nowhere only for a reader who may see none.
pub proof fn landing_is_open(caps: Capabilities, stored: Option<ConsoleEntity>)
    ensures
        landing(caps, stored) is Some ==> landing(caps, stored)->0.is_open_to(caps),
        landing(caps, stored) is None ==> forall|entity: ConsoleEntity|
            !#[trigger] entity.is_open_to(caps),
{
    lemma_first_open(ConsoleEntity::ALL@, caps);
    if landing(caps, stored) is None {
        assert forall|entity: ConsoleEntity| !#[trigger] entity.is_open_to(caps) by {
            entity.all_lists_each_once();
            let all = ConsoleEntity::ALL@;
            let i = choose|i: int| 0 <= i < all.len() && all[i] == entity;
            assert(!all[i].is_open_to(caps));
        }
    }
}

/// A way out of a view that the reader may not see, or a view to remember.
#[derive(Debug, Clone, Copy, PartialEq, Eq, Structural)]
pub enum SectionEffect {
    /// Nothing is known yet, or there is nowhere to go.
    Nothing,
    /// The reader may see the entity: it is where they left off.
    Remember(ConsoleEntity),
    /// The reader may not: the address is replaced by that of an entity they may see.
    Replace(ConsoleEntity),
}

/// What arriving at the bare console does: its address is replaced by that of the
/// landing entity.
pub fn console_effect(caps: &Capabilities, stored: Option<ConsoleEntity>) -> (r: SectionEffect)
    ensures
        r == (if !caps.ready || landing(*caps, stored) is None {
            SectionEffect::Nothing
        } else {
            SectionEffect::Replace(landing(*caps, stored)->0)
        }),
{
    if !caps.ready {
        return SectionEffect::Nothing;
    }
    match landing_entity(caps, stored) {
        Some(entity) => SectionEffect::Replace(entity),
        None => SectionEffect::Nothing,
    }
}

/// What arriving at an entity does: it is remembered, or left for one that the
/// reader may see.
pub fn section_effect(
    entity: ConsoleEntity,
    caps: &Capabilities,
    stored: Option<ConsoleEntity>,
) -> (r: SectionEffect)
    ensures
        r == (if !caps.ready {
            SectionEffect::Nothing
        } else if entity.is_open_to(*caps) {
            SectionEffect::Remember(entity)
        } else if landing(*caps, stored) is Some {
            SectionEffect::Replace(landing(*caps, stored)->0)
        } else {
            SectionEffect::Nothing
        }),
{
    if !caps.ready {
        return SectionEffect::Nothing;
    }
    if entity.is_visible(caps) {
        return SectionEffect::Remember(entity);
    }
    match landing_entity(caps, stored) {
        Some(fallback) => SectionEffect::Replace(fallback),
        None => SectionEffect::Nothing,
    }
}

/// What is drawn in place of an entity's panel, or the panel.
#[derive(Debug, Clone, Copy, PartialEq, Eq, Structural)]
pub enum SectionView {
    /// The reader is not signed in.
    SignIn,
    /// The reader's permissions are not known yet.
    Loading,
    /// The reader may not see it.
    OperatorsOnly,
    /// The panel.
    Panel,
}

/// What the bare console draws while its effect runs. Held back until the
/// permissions are known: "operators only" followed by the console reads as a
/// permission error.
pub fn console_view(
    authenticated: bool,
    caps: &Capabilities,
    stored: Option<ConsoleEntity>,
) -> (r: SectionView)
    ensures
        r == (if !authenticated {
            SectionView::SignIn
        } else if caps.ready && landing(*caps, stored) is None {
            SectionView::OperatorsOnly
        } else {
            SectionView::Loading
        }),
{
    if !authenticated {
        SectionView::SignIn
    } else if caps.ready && landing_entity(caps, stored).is_none() {
        SectionView::OperatorsOnly
    } else {
        SectionView::Loading
    }
}

/// What is drawn for an entity.
pub open spec fn section_shows(
    entity: ConsoleEntity,
    authenticated: bool,
    caps: Capabilities,
) -> SectionView {
    if !authenticated {
        SectionView::SignIn
    } else if !caps.ready {
        SectionView::Loading
    } else if !entity.is_open_to(caps) {
        SectionView::OperatorsOnly
    } else {
        SectionView::Panel
    }
}

/// What is drawn for an entity. A panel is drawn only for a reader who may see it,
/// so that it fires no fetch that they are not entitled to make.
pub fn section_view(entity: ConsoleEntity, authenticated: bool, caps: &Capabilities) -> (r:
    SectionView)
    ensures
        r == section_shows(entity, authenticated, *caps),
{
    if !authenticated {
        SectionView::SignIn
    } else if !caps.ready {
        SectionView::Loading
    } else if !entity.is_visible(caps) {
        SectionView::OperatorsOnly
    } else {
        SectionView::Panel
    }
}

/// No panel is drawn for a reader who is signed out, unknown, or without the
/// entity's permission and feature.
pub proof fn panel_needs_permission(
    entity: ConsoleEntity,
    authenticated: bool,
    caps: Capabilities,
)
    ensures
        (section_shows(entity, authenticated, caps) is Panel) == (authenticated && caps.ready
            && entity.is_open_to(caps)),
{
}

/// The entities of a group that are open to a reader.
pub open spec fn shown_in(group: RailGroup, caps: Capabilities) -> Seq<ConsoleEntity> {
    group.members().filter(|entity: ConsoleEntity| entity.is_open_to(caps))
}

/// One group of the rail with the entities that it shows.
#[derive(Debug, PartialEq, Eq)]
pub struct RailEntry {
    pub group: RailGroup,
    pub entities: Vec<ConsoleEntity>,
}

/// The groups of the rail that show something, from the first `n` groups.
pub open spec fn rail_groups(n: nat, caps: Capabilities) -> Seq<(RailGroup, Seq<ConsoleEntity>)>
    decreases n,
{
    if n == 0 {
        Seq::empty()
    } else {
        let rest = rail_groups((n - 1) as nat, caps);
        let group = RailGroup::ALL@[n - 1];
        if shown_in(group, caps).len() == 0 {
            rest
        } else {
            rest.push((group, shown_in(group, caps)))
        }
    }
}

/// A rail as groups and sequences.
pub open spec fn rail_view(entries: Seq<RailEntry>) -> Seq<(RailGroup, Seq<ConsoleEntity>)> {
    Seq::new(entries.len(), |i: int| (entries[i].group, entries[i].entities@))
}

fn shown(group: RailGroup, caps: &Capabilities) -> (r: Vec<ConsoleEntity>)
    ensures
        r@ == shown_in(group, *caps),
{
    let all = group.entities();
    let mut out: Vec<ConsoleEntity> = Vec::new();
    let ghost test = |entity: ConsoleEntity| entity.is_open_to(*caps);
    let mut i: usize = 0;
    assert(all@.take(0).filter(test) == Seq::<ConsoleEntity>::empty()) by {
        reveal(Seq::filter);
    }
    while i < all.len()
        invariant
            i <= all.len(),
            test == (|entity: ConsoleEntity| entity.is_open_to(*caps)),
            out@ == all@.take(i as int).filter(test),
        decreases all.len() - i,
    {
        proof {
            rows::lemma_filter_step(all@, i as int, test);
        }
        if all[i].is_visible(caps) {
            out.push(all[i]);
        }
        i = i + 1;
    }
    assert(all@.take(all@.len() as int) == all@);
    out
}

/// The rail that a reader sees. A group with nothing visible in it is dropped
/// whole: a heading over an empty stretch of rail reads as a broken list.
pub fn rail(caps: &Capabilities) -> (r: Vec<RailEntry>)
    ensures
        rail_view(r@) == rail_groups(4, *caps),
{
    let groups = RailGroup::ALL;
    let mut out: Vec<RailEntry> = Vec::new();
    let mut i: usize = 0;
    assert(rail_view(out@) =~= rail_groups(0, *caps));
    while i < 4
        invariant
            i <= 4,
            groups@ == RailGroup::ALL@,
            rail_view(out@) == rail_groups(i as nat, *caps),
        decreases 4 - i,
    {
        let entities = shown(groups[i], caps);
        let ghost earlier = out@;
        if entities.len() > 0 {
            let entry = RailEntry { group: groups[i], entities };
            out.push(entry);
            assert(rail_view(out@) =~= rail_view(earlier).push((entry.group, entry.entities@)));
        }
        assert(rail_view(out@) == rail_groups((i + 1) as nat, *caps));
        i = i + 1;
    }
    out
}

proof fn lemma_rail_groups(n: nat, caps: Capabilities)
    requires
        n <= 4,
    ensures
        forall|i: int|
            0 <= i < rail_groups(n, caps).len() ==> {
                let (group, list) = #[trigger] rail_groups(n, caps)[i];
                list.len() > 0 && list == shown_in(group, caps)
            },
        forall|g: int|
            0 <= g < n && shown_in(#[trigger] RailGroup::ALL@[g], caps).len() > 0 ==> exists|i: int|
                0 <= i < rail_groups(n, caps).len() && (#[trigger] rail_groups(n, caps)[i]).0
                    == RailGroup::ALL@[g],
    decreases n,
{
    if n > 0 {
        let m = (n - 1) as nat;
        lemma_rail_groups(m, caps);
        let old_rail = rail_groups(m, caps);
        let new_rail = rail_groups(n, caps);
        assert forall|g: int|
            0 <= g < n && shown_in(#[trigger] RailGroup::ALL@[g], caps).len() > 0 implies exists|
            i: int,
        |
            0 <= i < new_rail.len() && (#[trigger] new_rail[i]).0 == RailGroup::ALL@[g] by {
            if g < m {
                let i = choose|i: int|
                    0 <= i < old_rail.len() && (#[trigger] old_rail[i]).0 == RailGroup::ALL@[g];
                assert(new_rail[i] == old_rail[i]);
            } else {
                assert(new_rail[old_rail.len() as int].0 == RailGroup::ALL@[g]);
            }
        }
    }
}

/// The rail offers an entity exactly when the reader may see it, and no group of
/// the rail is empty.
pub proof fn rail_offers_what_is_open(caps: Capabilities)
    ensures
        forall|i: int|
            0 <= i < rail_groups(4, caps).len() ==> (#[trigger] rail_groups(4, caps)[i]).1.len()
                > 0,
        forall|entity: ConsoleEntity|
            #[trigger] entity.is_open_to(caps) <==> exists|i: int|
                0 <= i < rail_groups(4, caps).len() && (#[trigger] rail_groups(
                    4,
                    caps,
                )[i]).1.contains(entity),
{
    broadcast use vstd::seq_lib::group_filter_ensures;

    lemma_rail_groups(4, caps);
    let rail = rail_groups(4, caps);
    assert forall|entity: ConsoleEntity|
        #[trigger] entity.is_open_to(caps) <==> exists|i: int|
            0 <= i < rail.len() && (#[trigger] rail[i]).1.contains(entity) by {
        if entity.is_open_to(caps) {
            let (g, at) = lemma_group_of(entity);
            let group = RailGroup::ALL@[g];
            let test = |e: ConsoleEntity| e.is_open_to(caps);
            assert(test(group.members()[at]));
            assert(shown_in(group, caps).contains(entity));
            let i = choose|i: int| 0 <= i < rail.len() && (#[trigger] rail[i]).0 == group;
            assert(rail[i].1.contains(entity));
        }
        if exists|i: int| 0 <= i < rail.len() && (#[trigger] rail[i]).1.contains(entity) {
            let i = choose|i: int| 0 <= i < rail.len() && (#[trigger] rail[i]).1.contains(entity);
            let list = rail[i].1;
            let k = choose|k: int| 0 <= k < list.len() && list[k] == entity;
            let test = |e: ConsoleEntity| e.is_open_to(caps);
            assert(test(list[k]));
        }
    }
}

proof fn lemma_group_of(entity: ConsoleEntity) -> (r: (int, int))
    ensures
        0 <= r.0 < 4,
        0 <= r.1 < RailGroup::ALL@[r.0].members().len(),
        RailGroup::ALL@[r.0].members()[r.1] == entity,
{
    match entity {
        ConsoleEntity::Overview => (0, 0),
        ConsoleEntity::Catalogue => (1, 0),
        ConsoleEntity::Merge => (1, 1),
        ConsoleEntity::Decisions => (1, 2),
        ConsoleEntity::Recommendations => (1, 3),
        ConsoleEntity::Providers => (2, 0),
        ConsoleEntity::Scans => (2, 1),
        ConsoleEntity::Solver => (2, 2),
        ConsoleEntity::AdapterTest => (2, 3),
        ConsoleEntity::Users => (3, 0),
        ConsoleEntity::Sync => (3, 1),
        ConsoleEntity::Flags => (3, 2),
        ConsoleEntity::Privacy => (3, 3),
        ConsoleEntity::Audit => (3, 4),
    }
}

/// The figures of the whole system.
#[derive(Debug, Clone, Copy, PartialEq, Eq, Structural)]
pub struct SystemStats {
    pub providers_total: i64,
    pub providers_active: i64,
    pub providers_unhealthy: i64,
    pub providers_disabled: i64,
    pub series_total: i64,
    pub sources_total: i64,
    pub chapters_total: i64,
    pub chapters_7d: i64,
    pub chapters_24h: i64,
    pub chapters_1h: i64,
    pub runs_active: i64,
    pub runs_running: i64,
    pub tasks_queued: i64,
    pub tasks_running: i64,
    pub tasks_failed_24h: i64,
    pub pending_merges: i64,
    pub users_total: i64,
}

/// Whether the reader's rail carries numbers, and so needs its first figures.
pub fn can_count(caps: &Capabilities) -> (r: bool)
    ensures
        r == (caps.may(Permission::SystemStats) && caps.has(Feature::AdminStats)),
{
    caps.can(Permission::SystemStats) && caps.has_feature(Feature::AdminStats)
}

/// The figures that the rail shows: those pushed, or else those it was seeded with.
pub fn rail_figures(pushed: Option<SystemStats>, seed: Option<SystemStats>) -> (r: Option<
    SystemStats,
>)
    ensures
        r == (if pushed is Some {
            pushed
        } else {
            seed
        }),
{
    match pushed {
        Some(stats) => Some(stats),
        None => seed,
    }
}

/// Whether a count needs attention.
#[derive(Debug, Clone, Copy, PartialEq, Eq, Structural)]
pub enum CountTone {
    Plain,
    /// Work is queued and someone has to do it.
    Attention,
    /// Something is running right now.
    Live,
}

impl CountTone {
    /// The class that a count is drawn in.
    pub fn class(self) -> (r: &'static str)
        ensures
            r@ == (match self {
                CountTone::Plain => "cnt"@,
                CountTone::Attention => "cnt acc"@,
                CountTone::Live => "cnt live"@,
            }),
    {
        match self {
            CountTone::Plain => "cnt",
            CountTone::Attention => "cnt acc",
            CountTone::Live => "cnt live",
        }
    }
}

/// The count beside an entity on the rail, when the figures supply one.
pub open spec fn count_of(entity: ConsoleEntity, stats: Option<SystemStats>) -> Option<
    (i64, CountTone),
> {
    match stats {
        None => None,
        Some(s) => match entity {
            ConsoleEntity::Merge => Some(
                (
                    s.pending_merges,
                    if s.pending_merges > 0 {
                        CountTone::Attention
                    } else {
                        CountTone::Plain
                    },
                ),
            ),
            ConsoleEntity::Catalogue => Some((s.series_total, CountTone::Plain)),
            ConsoleEntity::Providers => Some((s.providers_total, CountTone::Plain)),
            ConsoleEntity::Scans => Some(
                (
                    s.runs_active,
                    if s.runs_active > 0 {
                        CountTone::Live
                    } else {
                        CountTone::Plain
                    },
                ),
            ),
            ConsoleEntity::Users => Some((s.users_total, CountTone::Plain)),
            _ => None,
        },
    }
}

/// The count beside an entity on the rail.
pub fn rail_count(entity: ConsoleEntity, counts: Option<SystemStats>) -> (r: Option<
    (i64, CountTone),
>)
    ensures
        r == count_of(entity, counts),
{
    let stats = match counts {
        Some(stats) => stats,
        None => return None,
    };
    match entity {
        ConsoleEntity::Merge => Some(
            (
                stats.pending_merges,
                if stats.pending_merges > 0 {
                    CountTone::Attention
                } else {
                    CountTone::Plain
                },
            ),
        ),
        ConsoleEntity::Catalogue => Some((stats.series_total, CountTone::Plain)),
        ConsoleEntity::Providers => Some((stats.providers_total, CountTone::Plain)),
        ConsoleEntity::Scans => Some(
            (
                stats.runs_active,
                if stats.runs_active > 0 {
                    CountTone::Live
                } else {
                    CountTone::Plain
                },
            ),
        ),
        ConsoleEntity::Users => Some((stats.users_total, CountTone::Plain)),
        _ => None,
    }
}

/// The class of the console's body: an entity with both panes gets the grid.
pub fn body_class(entity: ConsoleEntity) -> (r: &'static str)
    ensures
        r@ == (if entity == ConsoleEntity::Providers || entity == ConsoleEntity::Users {
            "ik-cons-body"@
        } else {
            "ik-cons-body wide"@
        }),
{
    if entity.is_master_detail() {
        "ik-cons-body"
    } else {
        "ik-cons-body wide"
    }
}

/// The class of a rail entry.
pub fn entry_class(entity: ConsoleEntity, current: ConsoleEntity) -> (r: &'static str)
    ensures
        r@ == (if entity == current {
            "ik-cons-entry active"@
        } else {
            "ik-cons-entry"@
        }),
{
    if entity == current {
        "ik-cons-entry active"
    } else {
        "ik-cons-entry"
    }
}

/// Which permission and which feature open each section. The decisions open to either of
/// the two journals' permissions; every other section has one, and none opens without its
/// feature.
pub proof fn each_section_takes_its_permission(
    entity: ConsoleEntity,
    caps: &Capabilities,
    open: bool,
)
    requires
        call_ensures(ConsoleEntity::is_visible, (entity, caps), open),
    ensures
        open <==> {
            let may = caps.permissions@;
            let has = caps.features@;
            match entity {
                ConsoleEntity::Overview => may.contains(Permission::SystemStats) && has.contains(
                    Feature::AdminStats,
                ),
                ConsoleEntity::Catalogue => may.contains(Permission::CatalogueRead) && has.contains(
                    Feature::AdminCatalogue,
                ),
                ConsoleEntity::Merge => may.contains(Permission::MergeRead) && has.contains(
                    Feature::ScanningMergeQueue,
                ),
                ConsoleEntity::Decisions => (may.contains(Permission::MergeAudit) || may.contains(
                    Permission::SyncAudit,
                )) && has.contains(Feature::AdminAudit),
                ConsoleEntity::Recommendations => may.contains(Permission::RecsysRead)
                    && has.contains(Feature::AdminRecommendations),
                ConsoleEntity::Providers | ConsoleEntity::Solver => may.contains(
                    Permission::ProvidersRead,
                ) && has.contains(Feature::AdminProviders),
                ConsoleEntity::Scans => may.contains(Permission::ScansRead) && has.contains(
                    Feature::ScanningManual,
                ),
                ConsoleEntity::AdapterTest => may.contains(Permission::ProvidersTest)
                    && has.contains(Feature::AdminAdapterTest),
                ConsoleEntity::Users => may.contains(Permission::UsersRead) && has.contains(
                    Feature::AdminUsers,
                ),
                ConsoleEntity::Sync => may.contains(Permission::SyncAdminRead) && has.contains(
                    Feature::AdminSync,
                ),
                ConsoleEntity::Flags => may.contains(Permission::FlagsRead) && has.contains(
                    Feature::AdminFeatureFlags,
                ),
                ConsoleEntity::Privacy => may.contains(Permission::PrivacyRead) && has.contains(
                    Feature::PrivacyRequests,
                ),
                ConsoleEntity::Audit => may.contains(Permission::AuditRead) && has.contains(
                    Feature::AdminAudit,
                ),
            }
        },
{
}

proof fn lemma_first_open_skips(list: Seq<ConsoleEntity>, caps: Capabilities, at: int)
    requires
        0 <= at < list.len(),
        list[at].is_open_to(caps),
        forall|i: int| 0 <= i < at ==> !(#[trigger] list[i]).is_open_to(caps),
    ensures
        first_open(list, caps) == Some(list[at]),
    decreases at,
{
    if at > 0 {
        let rest = list.drop_first();
        assert(!list[0].is_open_to(caps));
        assert forall|i: int| 0 <= i < at - 1 implies !(#[trigger] rest[i]).is_open_to(caps) by {
            assert(rest[i] == list[i + 1]);
        }
        lemma_first_open_skips(rest, caps, at - 1);
    }
}

/// A reader lands on the section they were last on, where it is still open to them, and
/// else on the first of the rail that is; with none open they land nowhere.
pub proof fn a_reader_lands_on_the_first_open_section(
    caps: &Capabilities,
    stored: Option<ConsoleEntity>,
    landed: Option<ConsoleEntity>,
    at: int,
)
    requires
        call_ensures(landing_entity, (caps, stored), landed),
        0 <= at < ConsoleEntity::ALL@.len(),
    ensures
        stored is Some && stored->0.is_open_to(*caps) ==> landed == stored,
        !(stored is Some && stored->0.is_open_to(*caps)) && ConsoleEntity::ALL@[at].is_open_to(
            *caps,
        ) && (forall|i: int| 0 <= i < at ==> !(#[trigger] ConsoleEntity::ALL@[i]).is_open_to(*caps))
            ==> landed == Some(ConsoleEntity::ALL@[at]),
        landed is Some ==> landed->0.is_open_to(*caps),
        landed is None ==> !ConsoleEntity::ALL@[at].is_open_to(*caps),
{
    landing_is_open(*caps, stored);
    if ConsoleEntity::ALL@[at].is_open_to(*caps) && (forall|i: int|
        0 <= i < at ==> !(#[trigger] ConsoleEntity::ALL@[i]).is_open_to(*caps)) {
        lemma_first_open_skips(ConsoleEntity::ALL@, *caps, at);
    }
}

/// What an address does: nothing before the reader's permissions are known; a section that
/// is open to them is remembered, and from one that is not they are sent where they land.
pub proof fn an_address_leads_where_it_may(
    entity: ConsoleEntity,
    caps: &Capabilities,
    stored: Option<ConsoleEntity>,
    done: SectionEffect,
    home: SectionEffect,
    landed: Option<ConsoleEntity>,
    open: bool,
)
    requires
        call_ensures(section_effect, (entity, caps, stored), done),
        call_ensures(console_effect, (caps, stored), home),
        call_ensures(landing_entity, (caps, stored), landed),
        call_ensures(ConsoleEntity::is_visible, (entity, caps), open),
    ensures
        !caps.ready ==> done is Nothing && home is Nothing,
        caps.ready && open ==> done == SectionEffect::Remember(entity),
        caps.ready && !open && landed is Some ==> done == SectionEffect::Replace(landed->0),
        caps.ready && !open && landed is None ==> done is Nothing,
        caps.ready && landed is Some ==> home == SectionEffect::Replace(landed->0),
        landed is None ==> home is Nothing,
{
}

/// What an address shows: the sign-in to one who is not signed in; then that it loads,
/// until the permissions are known; then the panel, where the section is open to the
/// reader, and otherwise that it is for operators.
pub proof fn an_address_shows_what_it_may(
    entity: ConsoleEntity,
    authenticated: bool,
    caps: &Capabilities,
    stored: Option<ConsoleEntity>,
    shown: SectionView,
    home: SectionView,
    landed: Option<ConsoleEntity>,
    open: bool,
)
    requires
        call_ensures(section_view, (entity, authenticated, caps), shown),
        call_ensures(console_view, (authenticated, caps, stored), home),
        call_ensures(landing_entity, (caps, stored), landed),
        call_ensures(ConsoleEntity::is_visible, (entity, caps), open),
    ensures
        shown is SignIn <==> !authenticated,
        shown is Loading <==> authenticated && !caps.ready,
        shown is Panel <==> authenticated && caps.ready && open,
        shown is OperatorsOnly <==> authenticated && caps.ready && !open,
        home is SignIn <==> !authenticated,
        home is OperatorsOnly <==> authenticated && caps.ready && landed is None,
        !(home is Panel),
{
}

/// A slug addresses its own section and no other text does.
pub proof fn a_slug_addresses_one_section(slug: Seq<char>, entity: ConsoleEntity)
    ensures
        ConsoleEntity::addressed_by(slug) == Some(entity) <==> slug == entity.slug_text(),
{
    entity.slug_reads_back();
}

/// The rail shows a section under its own heading and under no other, and there exactly
/// where it is open to the reader.
pub proof fn a_section_stands_under_its_heading(
    group: RailGroup,
    caps: Capabilities,
    entity: ConsoleEntity,
)
    ensures
        shown_in(group, caps).contains(entity) <==> entity.is_open_to(caps) && (match entity {
            ConsoleEntity::Overview => group is System,
            ConsoleEntity::Catalogue
            | ConsoleEntity::Merge
            | ConsoleEntity::Decisions
            | ConsoleEntity::Recommendations => group is Catalogue,
            ConsoleEntity::Providers
            | ConsoleEntity::Scans
            | ConsoleEntity::Solver
            | ConsoleEntity::AdapterTest => group is Pipeline,
            ConsoleEntity::Users
            | ConsoleEntity::Sync
            | ConsoleEntity::Flags
            | ConsoleEntity::Privacy
            | ConsoleEntity::Audit => group is People,
        }),
{
    broadcast use vstd::seq_lib::group_filter_ensures;

    let test = |e: ConsoleEntity| e.is_open_to(caps);
    let members = group.members();
    let shown = shown_in(group, caps);
    let (g, m) = lemma_group_of(entity);
    if shown.contains(entity) {
        let k = choose|k: int| 0 <= k < shown.len() && shown[k] == entity;
        assert(test(shown[k]));
        members.lemma_filter_contains_rev(test, entity);
    }
    if entity.is_open_to(caps) && members.contains(entity) {
        let k = choose|k: int| 0 <= k < members.len() && members[k] == entity;
        assert(test(members[k]));
        assert(shown.contains(members[k]));
    }
    if RailGroup::ALL@[g] == group {
        assert(members[m] == entity);
    }
}

/// What is counted beside a section: the merges that wait, which ask for attention, the
/// runs under way, which are live, and three totals; nothing else is counted, and nothing
/// where no figures are known.
pub proof fn a_count_stands_beside_its_section(
    entity: ConsoleEntity,
    stats: SystemStats,
    count: Option<(i64, CountTone)>,
    unknown: Option<(i64, CountTone)>,
)
    requires
        call_ensures(rail_count, (entity, Some(stats)), count),
        call_ensures(rail_count, (entity, None), unknown),
    ensures
        unknown is None,
        count is Some <==> entity is Merge || entity is Catalogue || entity is Providers || entity
            is Scans || entity is Users,
        entity is Merge ==> (count->0).0 == stats.pending_merges && ((count->0).1 is Attention
            <==> stats.pending_merges > 0),
        entity is Scans ==> (count->0).0 == stats.runs_active && ((count->0).1 is Live
            <==> stats.runs_active > 0),
        entity is Catalogue ==> (count->0).0 == stats.series_total,
        entity is Providers ==> (count->0).0 == stats.providers_total,
        entity is Users ==> (count->0).0 == stats.users_total,
        count is Some && !(entity is Merge) ==> !((count->0).1 is Attention),
        count is Some && !(entity is Scans) ==> !((count->0).1 is Live),
{
}

/// Figures are read by a reader who may see the overview; what was pushed stands before
/// what was fetched.
pub proof fn pushed_figures_stand_first(
    caps: &Capabilities,
    pushed: Option<SystemStats>,
    seed: Option<SystemStats>,
    may_count: bool,
    figures: Option<SystemStats>,
)
    requires
        call_ensures(can_count, (caps,), may_count),
        call_ensures(rail_figures, (pushed, seed), figures),
    ensures
        may_count <==> caps.permissions@.contains(Permission::SystemStats)
            && caps.features@.contains(Feature::AdminStats),
        pushed is Some ==> figures == pushed,
        pushed is None ==> figures == seed,
{
}

} // verus!
