//! The catalogue keys that the console's decisions name.
//!
//! These lists say which keys a catalogue is asked for, and nothing about what a catalogue
//! holds: a host whose catalogue leaves one of them out shows the key itself.

use crate::text;
use vstd::prelude::*;

verus! {

broadcast use vstd::string::group_string_axioms;

/// The keys of the catalogue.
pub const CATALOGUE: [&'static str; 20] = [
    "console.catalogue.deleteRadius",
    "console.catalogue.deleted",
    "console.catalogue.hits",
    "console.catalogue.purgeAllWhy",
    "console.catalogue.purgeBusy",
    "console.catalogue.purgeCancelled",
    "console.catalogue.purgeCancelling",
    "console.catalogue.purgeChaptersWhy",
    "console.catalogue.purgeDone",
    "console.catalogue.purgeFailed",
    "console.catalogue.purgeInterrupted",
    "console.catalogue.purgeProgress",
    "console.catalogue.purgeStalled",
    "console.catalogue.select",
    "console.catalogue.selected",
    "console.catalogue.stat.chapters",
    "console.catalogue.stat.empty",
    "console.catalogue.stat.orphaned",
    "console.catalogue.stat.series",
    "console.catalogue.stat.sources",
];

/// The keys of the journals.
pub const DECISIONS: [&'static str; 23] = [
    "console.decisions.actionFailed",
    "console.decisions.ancestorLocal",
    "console.decisions.ancestorRemote",
    "console.decisions.blockedBy",
    "console.decisions.externalId",
    "console.decisions.flagged",
    "console.decisions.flaggedAndBlocked",
    "console.decisions.flaggedBecause",
    "console.decisions.hideEvidence",
    "console.decisions.localMoved",
    "console.decisions.mergeEmpty",
    "console.decisions.noSeries",
    "console.decisions.policy",
    "console.decisions.reasonRequired",
    "console.decisions.remoteMoved",
    "console.decisions.revert",
    "console.decisions.reverted",
    "console.decisions.revertedBecause",
    "console.decisions.search.hits",
    "console.decisions.searchEmpty",
    "console.decisions.showEvidence",
    "console.decisions.syncEmpty",
    "console.decisions.syncReverted",
];

/// The keys of the figures.
pub const FIGURES: [&'static str; 63] = [
    "console.kpi.activeScans",
    "console.kpi.activeScansSub",
    "console.kpi.chapters",
    "console.kpi.chaptersSub",
    "console.kpi.failures24h",
    "console.kpi.failures24hSub",
    "console.kpi.mergeQueue",
    "console.kpi.mergeQueueSub",
    "console.kpi.new24h",
    "console.kpi.new24hSub",
    "console.kpi.providers",
    "console.kpi.providersSub",
    "console.kpi.queueDepth",
    "console.kpi.queueDepthSub",
    "console.kpi.series",
    "console.kpi.seriesSub",
    "console.kpi.users",
    "console.kpi.usersSub",
    "console.overview.unavailable",
    "console.recsys.generation",
    "console.recsys.group.affinity",
    "console.recsys.group.build",
    "console.recsys.group.cooccurrence",
    "console.recsys.group.diversity",
    "console.recsys.group.prior",
    "console.recsys.group.retrieval",
    "console.recsys.group.scoring",
    "console.recsys.group.serving",
    "console.recsys.kpi.catalogue",
    "console.recsys.kpi.catalogueSub",
    "console.recsys.kpi.embedded",
    "console.recsys.kpi.embeddedSub",
    "console.recsys.kpi.lastRun",
    "console.recsys.kpi.lastRunSub",
    "console.recsys.kpi.recommendable",
    "console.recsys.kpi.recommendableSub",
    "console.recsys.kpi.repairQueue",
    "console.recsys.kpi.repairQueueSub",
    "console.recsys.kpi.vocabulary",
    "console.recsys.kpi.vocabularySub",
    "console.recsys.lastBuilt",
    "console.recsys.lastError",
    "console.recsys.progressOf",
    "console.recsys.progressWorking",
    "console.recsys.rebuildFull",
    "console.recsys.rebuildFullHint",
    "console.recsys.rebuildIncremental",
    "console.recsys.rebuildIncrementalHint",
    "console.recsys.runningFor",
    "console.recsys.stageStep",
    "console.recsys.startedAt",
    "console.stats.blockedSources",
    "console.stats.col.adapter",
    "console.stats.col.chapters",
    "console.stats.col.day",
    "console.stats.col.lastRun",
    "console.stats.col.lastScan",
    "console.stats.col.new24h",
    "console.stats.col.new7d",
    "console.stats.col.newest",
    "console.stats.col.series",
    "console.stats.col.sources",
    "console.stats.col.week",
];

/// The keys of the merge queue.
pub const MERGE: [&'static str; 22] = [
    "console.merge.actionFailed",
    "console.merge.bandAll",
    "console.merge.bandHigh",
    "console.merge.bandLow",
    "console.merge.bandMed",
    "console.merge.compare",
    "console.merge.fullSweepBusy",
    "console.merge.fullSweepCapped",
    "console.merge.fullSweepCeiling",
    "console.merge.fullSweepDone",
    "console.merge.fullSweepFailed",
    "console.merge.fullSweepRunning",
    "console.merge.fullSweepStarted",
    "console.merge.hide",
    "console.merge.policy.hide",
    "console.merge.policy.show",
    "console.merge.policy.title",
    "console.merge.reason",
    "console.merge.rebuildDone",
    "console.merge.score",
    "console.merge.sides",
    "console.merge.sweepDone",
];

/// The keys of the merges that were made.
pub const MERGES: [&'static str; 36] = [
    "console.merges.absorbedVerb",
    "console.merges.badge.merged",
    "console.merges.badge.reverted",
    "console.merges.byOperator",
    "console.merges.bySweep",
    "console.merges.chapterTally",
    "console.merges.count",
    "console.merges.hits",
    "console.merges.hitsMore",
    "console.merges.idGone",
    "console.merges.idResolvesAgain",
    "console.merges.journalIntact",
    "console.merges.lens.all",
    "console.merges.lens.byOperator",
    "console.merges.lens.flagged",
    "console.merges.lens.reverted",
    "console.merges.mergeId",
    "console.merges.noReason",
    "console.merges.pendingRows",
    "console.merges.putBack",
    "console.merges.restoredRows",
    "console.merges.sourceTally",
    "console.merges.spentBody",
    "console.merges.tab.evidence",
    "console.merges.tab.trail",
    "console.merges.tab.why",
    "console.merges.trail.decided",
    "console.merges.trail.flagged",
    "console.merges.trail.reverted",
    "console.merges.trail.sweep",
    "console.merges.undoSpent",
    "console.merges.unmergeBody",
    "console.merges.unmergeCta",
    "console.merges.wasFlagged",
    "console.merges.wasReverted",
    "console.merges.watcherTally",
];

/// The keys of the panels about people.
pub const PEOPLE: [&'static str; 24] = [
    "console.audit.hideDetail",
    "console.audit.showDetail",
    "console.audit.system",
    "console.flags.changedBy",
    "console.flags.disable",
    "console.flags.enable",
    "console.flags.group.accounts",
    "console.flags.group.catalogue",
    "console.flags.group.notifications",
    "console.flags.group.operations",
    "console.flags.group.privacy",
    "console.flags.group.scanning",
    "console.flags.group.sync",
    "console.flags.group.tracking",
    "console.flags.off",
    "console.flags.on",
    "console.privacy.claimedBy",
    "console.privacy.defaultRejectionReason",
    "console.privacy.dueBy",
    "console.privacy.eraseConfirmLabel",
    "console.privacy.exportDone",
    "console.privacy.exportFailed",
    "console.privacy.filedOn",
    "console.privacy.subjectErased",
];

/// The keys of the providers.
pub const PROVIDERS: [&'static str; 65] = [
    "console.adapterKind.custom",
    "console.adapterKind.genericConfig",
    "console.adapterKind.keyoapp",
    "console.adapterKind.madara",
    "console.adapterKind.manganato",
    "console.adapterKind.mangathemesia",
    "console.adapterTest.run",
    "console.adapterTest.running",
    "console.providerState.active",
    "console.providerState.blocked",
    "console.providerState.challenged",
    "console.providerState.degraded",
    "console.providerState.disabled",
    "console.providerState.solving",
    "console.providerState.unknown",
    "console.providers.add",
    "console.providers.badConcurrency",
    "console.providers.badConfig",
    "console.providers.badCrawlDelay",
    "console.providers.badEmulation",
    "console.providers.badRps",
    "console.providers.blocked",
    "console.providers.blocklistCta",
    "console.providers.cloneName",
    "console.providers.cloneTitle",
    "console.providers.count",
    "console.providers.deleteRadius",
    "console.providers.enable",
    "console.providers.hits",
    "console.providers.jsonInvalid",
    "console.providers.jsonValid",
    "console.providers.lastChapter",
    "console.providers.lastFullScan",
    "console.providers.lastScan",
    "console.providers.metaSeries",
    "console.providers.metaToday",
    "console.providers.migrateWarning",
    "console.providers.missingFields",
    "console.providers.parsed",
    "console.providers.parsedOk",
    "console.providers.pause",
    "console.providers.preset.budgetValues",
    "console.providers.preset.customBody",
    "console.providers.preset.customHead",
    "console.providers.preset.lockedBody",
    "console.providers.preset.lockedHead",
    "console.providers.preset.pillCustom",
    "console.providers.preset.pillCustomTitle",
    "console.providers.preset.pillLocked",
    "console.providers.preset.pillLockedTitle",
    "console.providers.preset.relinked",
    "console.providers.preset.retiredBody",
    "console.providers.preset.retiredHead",
    "console.providers.preset.unlocked",
    "console.providers.runFailed",
    "console.providers.saved",
    "console.providers.savedMigrating",
    "console.providers.scanQueued",
    "console.providers.tab.config",
    "console.providers.tab.coverage",
    "console.providers.tab.danger",
    "console.providers.tab.politeness",
    "console.providers.tab.runs",
    "console.providers.unavailable",
    "console.providers.unblock",
];

/// The keys of the rail.
pub const RAIL: [&'static str; 18] = [
    "console.group.catalogue",
    "console.group.people",
    "console.group.pipeline",
    "console.group.system",
    "console.tab.adapterTest",
    "console.tab.audit",
    "console.tab.catalogue",
    "console.tab.decisions",
    "console.tab.flags",
    "console.tab.liveScans",
    "console.tab.merge",
    "console.tab.overview",
    "console.tab.privacy",
    "console.tab.providers",
    "console.tab.recommendations",
    "console.tab.solver",
    "console.tab.sync",
    "console.tab.users",
];

/// The keys of the scan panels.
pub const SCANNING: [&'static str; 59] = [
    "console.live.connecting",
    "console.live.detached",
    "console.live.pause",
    "console.live.reconnecting",
    "console.live.resume",
    "console.live.streaming",
    "console.scan.detail.minutes",
    "console.scan.detail.underAMinute",
    "console.scan.explain.fetching",
    "console.scan.explain.hide",
    "console.scan.explain.mixed",
    "console.scan.explain.pacing",
    "console.scan.explain.show",
    "console.scan.explain.solving",
    "console.scan.explain.stage",
    "console.scan.explain.throttled",
    "console.scan.explain.trivial",
    "console.scan.explain.unmeasured",
    "console.scan.failures.cleared",
    "console.scan.failures.clearedCount",
    "console.scan.failures.confirmAll",
    "console.scan.failures.confirmGroup",
    "console.scan.failures.noError",
    "console.scan.health.busy",
    "console.scan.health.runBreakdown",
    "console.scan.health.taskBreakdown",
    "console.scan.history.count",
    "console.scan.history.countFiltered",
    "console.scan.history.noneMatch",
    "console.scan.live.staleClaim",
    "console.scan.sort.failures",
    "console.scan.sort.recent",
    "console.scan.stage.catalogFanout",
    "console.scan.stage.catalogFetch",
    "console.scan.stage.catalogRegister",
    "console.scan.stage.feedFanout",
    "console.scan.stage.feedFetch",
    "console.scan.stage.planning",
    "console.scan.stage.seriesChapters",
    "console.scan.stage.seriesIngest",
    "console.scan.stage.seriesMetadata",
    "console.scan.stage.since",
    "console.scan.stage.starting",
    "console.scan.stage.unknown",
    "console.scan.stage.waiting",
    "console.scans.cancelled",
    "console.scans.failureMeta",
    "console.scans.modeFast",
    "console.scans.modeFull",
    "console.scans.noErrorMessage",
    "console.scans.noRuns",
    "console.scans.progress",
    "console.scans.queued",
    "console.scans.scopeAll",
    "console.scans.scopeUnknown",
    "console.window.any",
    "console.window.day",
    "console.window.hour",
    "console.window.week",
];

/// The keys of words that panels share.
pub const SHARED: [&'static str; 7] = [
    "series.chapterCount",
    "series.sources",
    "stepUp.confirmedRetry",
    "time.hoursMinutes",
    "time.minutes",
    "time.seconds",
    "time.unknown",
];

/// Whether a list holds a key.
pub open spec fn listed(list: Seq<&'static str>, key: Seq<char>) -> bool {
    exists|i: int| 0 <= i < list.len() && (#[trigger] list[i])@ == key
}

fn lists(list: &[&'static str], key: &str) -> (r: bool)
    ensures
        r == listed(list@, key@),
{
    let mut i: usize = 0;
    while i < list.len()
        invariant
            i <= list.len(),
            forall|j: int| 0 <= j < i ==> (#[trigger] list@[j])@ != key@,
        decreases list.len() - i,
    {
        if text::same(list[i], key) {
            return true;
        }
        i = i + 1;
    }
    false
}

/// Whether a key is one that the decisions name.
pub open spec fn is_named(key: Seq<char>) -> bool {
    ||| listed(CATALOGUE@, key)
    ||| listed(DECISIONS@, key)
    ||| listed(FIGURES@, key)
    ||| listed(MERGE@, key)
    ||| listed(MERGES@, key)
    ||| listed(PEOPLE@, key)
    ||| listed(PROVIDERS@, key)
    ||| listed(RAIL@, key)
    ||| listed(SCANNING@, key)
    ||| listed(SHARED@, key)
}

/// Whether a key is one that the decisions name.
pub fn has_key(key: &str) -> (r: bool)
    ensures
        r == is_named(key@),
{
    lists(&CATALOGUE, key) || lists(&DECISIONS, key) || lists(&FIGURES, key)
        || lists(&MERGE, key) || lists(&MERGES, key) || lists(&PEOPLE, key)
        || lists(&PROVIDERS, key) || lists(&RAIL, key) || lists(&SCANNING, key)
        || lists(&SHARED, key)
}

} // verus!
