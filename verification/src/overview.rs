//! The figures of the whole system, at a glance.

use crate::entity::SystemStats;
use crate::recommendations::{Kpi, KpiView};
use crate::wording::{ArgView, Phrase, PhraseView};
use vstd::prelude::*;

verus! {

broadcast use vstd::string::group_string_axioms;

/// The class of a figure that says that something goes on.
pub open spec fn good_if(yes: bool) -> Seq<char> {
    if yes {
        "good"@
    } else {
        ""@
    }
}

/// A figure with a count beneath it.
pub open spec fn tile(
    label: Seq<char>,
    value: i64,
    sub: Seq<char>,
    count: i64,
    accent: Seq<char>,
) -> KpiView {
    KpiView {
        label,
        value,
        sub: PhraseView::plain(sub).grouped("count"@, count as int),
        accent,
    }
}

/// A figure with a plain sentence beneath it.
pub open spec fn plain_tile(
    label: Seq<char>,
    value: i64,
    sub: Seq<char>,
    accent: Seq<char>,
) -> KpiView {
    KpiView { label, value, sub: PhraseView::plain(sub), accent }
}

/// The nine figures of the system.
pub open spec fn tiles(s: SystemStats) -> Seq<KpiView> {
    seq![
        KpiView {
            label: "console.kpi.providers"@,
            value: s.providers_total,
            sub: PhraseView::plain("console.kpi.providersSub"@).grouped(
                "active"@,
                s.providers_active as int,
            ).grouped("unhealthy"@, s.providers_unhealthy as int).grouped(
                "disabled"@,
                s.providers_disabled as int,
            ),
            accent: ""@,
        },
        tile(
            "console.kpi.series"@,
            s.series_total,
            "console.kpi.seriesSub"@,
            s.sources_total,
            ""@,
        ),
        tile(
            "console.kpi.chapters"@,
            s.chapters_total,
            "console.kpi.chaptersSub"@,
            s.chapters_7d,
            ""@,
        ),
        tile(
            "console.kpi.new24h"@,
            s.chapters_24h,
            "console.kpi.new24hSub"@,
            s.chapters_1h,
            ""@,
        ),
        tile(
            "console.kpi.activeScans"@,
            s.runs_active,
            "console.kpi.activeScansSub"@,
            s.runs_running,
            good_if(s.runs_active > 0),
        ),
        tile(
            "console.kpi.queueDepth"@,
            s.tasks_queued,
            "console.kpi.queueDepthSub"@,
            s.tasks_running,
            ""@,
        ),
        plain_tile(
            "console.kpi.failures24h"@,
            s.tasks_failed_24h,
            "console.kpi.failures24hSub"@,
            crate::recommendations::warned(s.tasks_failed_24h > 0),
        ),
        plain_tile(
            "console.kpi.mergeQueue"@,
            s.pending_merges,
            "console.kpi.mergeQueueSub"@,
            crate::recommendations::warned(s.pending_merges > 0),
        ),
        plain_tile("console.kpi.users"@, s.users_total, "console.kpi.usersSub"@, ""@),
    ]
}

fn counted(
    label: &'static str,
    value: i64,
    sub: &'static str,
    count: i64,
    accent: &'static str,
) -> (r: Kpi)
    ensures
        r@ == tile(label@, value, sub@, count, accent@),
{
    Kpi { label, value, sub: Phrase::plain(sub).grouped("count", count), accent }
}

fn plain(label: &'static str, value: i64, sub: &'static str, accent: &'static str) -> (r: Kpi)
    ensures
        r@ == plain_tile(label@, value, sub@, accent@),
{
    Kpi { label, value, sub: Phrase::plain(sub), accent }
}

/// The nine figures of the system: what runs is marked as good, what failed or waits for
/// an operator as wanting attention.
pub fn kpi_grid(s: SystemStats) -> (r: Vec<Kpi>)
    ensures
        Seq::new(r@.len(), |i: int| r@[i]@) == tiles(s),
{
    let running = if s.runs_active > 0 {
        "good"
    } else {
        ""
    };
    let failing = if s.tasks_failed_24h > 0 {
        "warn"
    } else {
        ""
    };
    let waiting = if s.pending_merges > 0 {
        "warn"
    } else {
        ""
    };
    let mut out: Vec<Kpi> = Vec::new();
    out.push(
        Kpi {
            label: "console.kpi.providers",
            value: s.providers_total,
            sub: Phrase::plain("console.kpi.providersSub").grouped(
                "active",
                s.providers_active,
            ).grouped("unhealthy", s.providers_unhealthy).grouped(
                "disabled",
                s.providers_disabled,
            ),
            accent: "",
        },
    );
    out.push(
        counted(
            "console.kpi.series",
            s.series_total,
            "console.kpi.seriesSub",
            s.sources_total,
            "",
        ),
    );
    out.push(
        counted(
            "console.kpi.chapters",
            s.chapters_total,
            "console.kpi.chaptersSub",
            s.chapters_7d,
            "",
        ),
    );
    out.push(
        counted(
            "console.kpi.new24h",
            s.chapters_24h,
            "console.kpi.new24hSub",
            s.chapters_1h,
            "",
        ),
    );
    out.push(
        counted(
            "console.kpi.activeScans",
            s.runs_active,
            "console.kpi.activeScansSub",
            s.runs_running,
            running,
        ),
    );
    out.push(
        counted(
            "console.kpi.queueDepth",
            s.tasks_queued,
            "console.kpi.queueDepthSub",
            s.tasks_running,
            "",
        ),
    );
    out.push(
        plain(
            "console.kpi.failures24h",
            s.tasks_failed_24h,
            "console.kpi.failures24hSub",
            failing,
        ),
    );
    out.push(
        plain("console.kpi.mergeQueue", s.pending_merges, "console.kpi.mergeQueueSub", waiting),
    );
    out.push(plain("console.kpi.users", s.users_total, "console.kpi.usersSub", ""));
    assert(Seq::new(out@.len(), |i: int| out@[i]@) =~= tiles(s));
    out
}

/// What the overview says where the figures cannot be had.
pub fn unavailable(message: &str) -> (r: Phrase)
    ensures
        r@ == PhraseView::plain("console.overview.unavailable"@).verbatim("message"@, message@),
{
    Phrase::plain("console.overview.unavailable").verbatim("message", message)
}

/// The nine tiles are those of the figures, in their order. Scans under way are good news,
/// failures of the day and merges that wait are a warning, where there are any; no other
/// tile is coloured.
pub proof fn tiles_are_coloured_by_what_they_count(s: SystemStats)
    ensures
        tiles(s).len() == 9,
        tiles(s)[0].value == s.providers_total,
        tiles(s)[1].value == s.series_total,
        tiles(s)[2].value == s.chapters_total,
        tiles(s)[3].value == s.chapters_24h,
        tiles(s)[4].value == s.runs_active,
        tiles(s)[5].value == s.tasks_queued,
        tiles(s)[6].value == s.tasks_failed_24h,
        tiles(s)[7].value == s.pending_merges,
        tiles(s)[8].value == s.users_total,
        tiles(s)[4].accent == "good"@ <==> s.runs_active > 0,
        tiles(s)[6].accent == "warn"@ <==> s.tasks_failed_24h > 0,
        tiles(s)[7].accent == "warn"@ <==> s.pending_merges > 0,
        forall|i: int|
            0 <= i < 9 && i != 4 && i != 6 && i != 7 ==> (#[trigger] tiles(s)[i]).accent.len() == 0,
{
    reveal_strlit("");
    reveal_strlit("good");
    reveal_strlit("warn");
    assert(""@.len() == 0);
    assert("good"@.len() == 4);
    assert("warn"@.len() == 4);
}

/// Under a total stands what it is made of: the providers by their state, the sources of
/// the series, the chapters of the week and of the hour, and what of the runs and of the
/// tasks is running.
pub proof fn a_tile_tells_what_it_is_made_of(s: SystemStats)
    ensures
        tiles(s)[0].sub.args == seq![
            ("active"@, ArgView::Grouped(s.providers_active as int)),
            ("unhealthy"@, ArgView::Grouped(s.providers_unhealthy as int)),
            ("disabled"@, ArgView::Grouped(s.providers_disabled as int)),
        ],
        tiles(s)[1].sub.args == seq![("count"@, ArgView::Grouped(s.sources_total as int))],
        tiles(s)[2].sub.args == seq![("count"@, ArgView::Grouped(s.chapters_7d as int))],
        tiles(s)[3].sub.args == seq![("count"@, ArgView::Grouped(s.chapters_1h as int))],
        tiles(s)[4].sub.args == seq![("count"@, ArgView::Grouped(s.runs_running as int))],
        tiles(s)[5].sub.args == seq![("count"@, ArgView::Grouped(s.tasks_running as int))],
{
    assert(tiles(s)[0].sub.args =~= seq![
        ("active"@, ArgView::Grouped(s.providers_active as int)),
        ("unhealthy"@, ArgView::Grouped(s.providers_unhealthy as int)),
        ("disabled"@, ArgView::Grouped(s.providers_disabled as int)),
    ]);
    assert(tiles(s)[1].sub.args =~= seq![("count"@, ArgView::Grouped(s.sources_total as int))]);
    assert(tiles(s)[2].sub.args =~= seq![("count"@, ArgView::Grouped(s.chapters_7d as int))]);
    assert(tiles(s)[3].sub.args =~= seq![("count"@, ArgView::Grouped(s.chapters_1h as int))]);
    assert(tiles(s)[4].sub.args =~= seq![("count"@, ArgView::Grouped(s.runs_running as int))]);
    assert(tiles(s)[5].sub.args =~= seq![("count"@, ArgView::Grouped(s.tasks_running as int))]);
}

} // verus!
