//! The switches of the deployment: each with its state and who last changed it.

use crate::access::{Capabilities, Permission};
use crate::rows;
use crate::wording::{Phrase, PhraseView};
use vstd::prelude::*;

verus! {

broadcast use vstd::string::group_string_axioms;

/// What a switch belongs to.
#[derive(Debug, Clone, Copy, PartialEq, Eq, Structural)]
pub enum FeatureGroup {
    Catalogue,
    Accounts,
    Privacy,
    Tracking,
    Notifications,
    Sync,
    Scanning,
    Operations,
}

/// The groups in display order, each with the catalogue key of its title.
pub const GROUPS: [(FeatureGroup, &'static str); 8] = [
    (FeatureGroup::Catalogue, "console.flags.group.catalogue"),
    (FeatureGroup::Accounts, "console.flags.group.accounts"),
    (FeatureGroup::Privacy, "console.flags.group.privacy"),
    (FeatureGroup::Tracking, "console.flags.group.tracking"),
    (FeatureGroup::Notifications, "console.flags.group.notifications"),
    (FeatureGroup::Sync, "console.flags.group.sync"),
    (FeatureGroup::Scanning, "console.flags.group.scanning"),
    (FeatureGroup::Operations, "console.flags.group.operations"),
];

impl FeatureGroup {
    /// Every group has its place in the list, so that no switch goes unseen.
    pub proof fn is_offered(self)
        ensures
            exists|i: int| 0 <= i < 8 && #[trigger] GROUPS@[i].0 == self,
    {
        match self {
            FeatureGroup::Catalogue => assert(GROUPS@[0].0 == self),
            FeatureGroup::Accounts => assert(GROUPS@[1].0 == self),
            FeatureGroup::Privacy => assert(GROUPS@[2].0 == self),
            FeatureGroup::Tracking => assert(GROUPS@[3].0 == self),
            FeatureGroup::Notifications => assert(GROUPS@[4].0 == self),
            FeatureGroup::Sync => assert(GROUPS@[5].0 == self),
            FeatureGroup::Scanning => assert(GROUPS@[6].0 == self),
            FeatureGroup::Operations => assert(GROUPS@[7].0 == self),
        }
    }
}

/// A switch.
#[derive(Debug, PartialEq, Eq)]
pub struct Flag {
    pub key: String,
    pub group: FeatureGroup,
    pub enabled: bool,
    pub default_enabled: bool,
    /// Whether a value is stored for it.
    pub overridden: bool,
    /// Whether it cannot be switched at all.
    pub locked: bool,
    pub updated_by: Option<String>,
    pub updated_at: Option<String>,
}

/// The positions of the switches of a group, in order. A group without any is not shown.
pub fn flags_of(list: &[Flag], group: FeatureGroup) -> (r: Vec<usize>)
    ensures
        rows::positions(r@) == rows::kept(list@.len(), |i: int| list@[i].group == group),
{
    let ghost test = |i: int| list@[i].group == group;
    let mut out: Vec<usize> = Vec::new();
    let mut i: usize = 0;
    assert(rows::positions(out@) =~= rows::kept(0, test));
    while i < list.len()
        invariant
            i <= list.len(),
            test == (|i: int| list@[i].group == group),
            rows::positions(out@) == rows::kept(i as nat, test),
        decreases list.len() - i,
    {
        let ghost earlier = out@;
        if list[i].group == group {
            out.push(i);
            assert(rows::positions(out@) =~= rows::positions(earlier).push(i as int));
        }
        assert(rows::positions(out@) == rows::kept((i + 1) as nat, test));
        i = i + 1;
    }
    out
}

/// Whether the reader may switch anything; the panel says so where they may not.
pub fn may_write(caps: &Capabilities) -> (r: bool)
    ensures
        r == caps.may(Permission::FlagsWrite),
{
    caps.can(Permission::FlagsWrite)
}

/// What a switch's row shows.
#[derive(Debug, PartialEq, Eq)]
pub struct FlagFace {
    pub pill_class: &'static str,
    pub pill: &'static str,
    /// Whether it differs from what is shipped: what an operator looks for.
    pub changed: bool,
    pub changed_by: Option<Phrase>,
    /// The value that the toggle would set, where it is offered.
    pub toggle: Option<bool>,
    pub toggle_key: &'static str,
    /// Whether the stored value can be withdrawn: not where there is none.
    pub reset: bool,
}

/// Who changed a switch, and when.
pub open spec fn changed_words(flag: Flag) -> Option<PhraseView> {
    match flag.updated_by {
        Some(by) => Some(
            PhraseView::plain("console.flags.changedBy"@).verbatim("user"@, by@).day(
                "date"@,
                match flag.updated_at {
                    Some(at) => at@,
                    None => ""@,
                },
            ),
        ),
        None => None,
    }
}

/// What a switch's row shows.
pub fn flag_face(flag: &Flag, can_write: bool) -> (r: FlagFace)
    ensures
        r.pill_class@ == (if flag.enabled {
            "ik-pill jade"@
        } else {
            "ik-pill vermilion"@
        }),
        r.pill@ == (if flag.enabled {
            "console.flags.on"@
        } else {
            "console.flags.off"@
        }),
        r.changed == (flag.overridden && flag.enabled != flag.default_enabled),
        (match r.changed_by {
            Some(p) => Some(p@),
            None => None,
        }) == changed_words(*flag),
        r.toggle == (if can_write && !flag.locked {
            Some(!flag.enabled)
        } else {
            None
        }),
        r.toggle_key@ == (if flag.enabled {
            "console.flags.disable"@
        } else {
            "console.flags.enable"@
        }),
        r.reset == (can_write && !flag.locked && flag.overridden),
{
    let offered = can_write && !flag.locked;
    let changed_by = match &flag.updated_by {
        Some(by) => {
            let at = match &flag.updated_at {
                Some(at) => at.as_str(),
                None => "",
            };
            Some(
                Phrase::plain("console.flags.changedBy").verbatim("user", by.as_str()).day(
                    "date",
                    at,
                ),
            )
        },
        None => None,
    };
    FlagFace {
        pill_class: if flag.enabled {
            "ik-pill jade"
        } else {
            "ik-pill vermilion"
        },
        pill: if flag.enabled {
            "console.flags.on"
        } else {
            "console.flags.off"
        },
        changed: flag.overridden && flag.enabled != flag.default_enabled,
        changed_by,
        toggle: if offered {
            Some(!flag.enabled)
        } else {
            None
        },
        toggle_key: if flag.enabled {
            "console.flags.disable"
        } else {
            "console.flags.enable"
        },
        reset: offered && flag.overridden,
    }
}

/// The class of a toggle: to switch on is the main step.
pub fn toggle_class(enable: bool) -> (r: &'static str)
    ensures
        r@ == (if enable {
            "ik-btn primary"@
        } else {
            "ik-btn"@
        }),
{
    if enable {
        "ik-btn primary"
    } else {
        "ik-btn"
    }
}

/// The flags of a group are those that belong to it, each once and in their order.
pub proof fn a_group_lists_its_flags(list: &[Flag], group: FeatureGroup, found: Vec<usize>, i: int)
    requires
        call_ensures(flags_of, (list, group), found),
        0 <= i < list@.len(),
    ensures
        (exists|k: int| 0 <= k < found@.len() && #[trigger] found@[k] == i) <==> list@[i].group
            == group,
        forall|j: int, k: int|
            0 <= j < k < found@.len() ==> #[trigger] found@[j] < #[trigger] found@[k],
{
    let test = |i: int| list@[i].group == group;
    rows::listed_where_it_passes(list@.len(), test, found@, i);
    assert(test(i) == (list@[i].group == group));
}

/// What a flag offers: to turn it over, and to forget what was set where something was; to
/// a reader who may write, and never of a locked one. It says that it was changed only
/// where what was set differs from the default.
pub proof fn a_locked_flag_offers_nothing(flag: &Flag, can_write: bool, face: FlagFace)
    requires
        call_ensures(flag_face, (flag, can_write), face),
    ensures
        face.toggle is Some <==> can_write && !flag.locked,
        face.toggle is Some ==> face.toggle->0 != flag.enabled,
        face.reset <==> can_write && !flag.locked && flag.overridden,
        face.changed <==> flag.overridden && flag.enabled != flag.default_enabled,
        face.changed_by is Some <==> flag.updated_by is Some,
        face.pill@ == (if flag.enabled {
            "console.flags.on"@
        } else {
            "console.flags.off"@
        }),
        face.toggle_key@ == (if flag.enabled {
            "console.flags.disable"@
        } else {
            "console.flags.enable"@
        }),
        face.pill_class@ == (if flag.enabled {
            "ik-pill jade"@
        } else {
            "ik-pill vermilion"@
        }),
{
}

/// Who changed a flag is named with the day of the change.
pub proof fn a_change_is_signed(flag: Flag)
    ensures
        changed_words(flag) is Some <==> flag.updated_by is Some,
        flag.updated_by is Some ==> changed_words(flag)->0.args[0].1
            == crate::wording::ArgView::Label(
            crate::wording::LabelView::Verbatim(flag.updated_by->0@),
        ),
        flag.updated_by is Some && flag.updated_at is Some ==> changed_words(flag)->0.args[1].1
            == crate::wording::ArgView::Day(flag.updated_at->0@),
{
}

} // verus!
