//! Transcode herdr's per-tab layout and pane metadata into the neutral
//! [`LayoutSnapshot`], registering every herdr id in the shared registries.

use vstd::prelude::*;

use crate::herdr::api::{PaneInfo, PaneLayoutPane, PaneLayoutSnapshot, TabInfo};
use crate::herdr::registry::{
    last_term, lemma_pane_steps, lemma_tab_steps, pane_model_consistent, pane_step, pane_steps,
    seen, tab_model_consistent, tab_seen, tab_steps, HerdrPaneRegistry, HerdrTabRegistry,
    PaneModel, TabModel,
};
use crate::multiplexer::types::{LayoutSnapshot, PaneSnapshot, TabSnapshot};

verus! {

/// `m2` keeps every entry of `m1` unchanged.
pub open spec fn map_extends<K, V>(m1: Map<K, V>, m2: Map<K, V>) -> bool {
    forall|k: K| #[trigger] m1.contains_key(k) ==> m2.contains_key(k) && m2[k] == m1[k]
}

/// The pane metadata herdr reported for `pane_id` (the last listed entry wins).
pub open spec fn info_for(panes: Seq<PaneInfo>, pane_id: Seq<char>) -> Option<PaneInfo>
    decreases panes.len(),
{
    if panes.len() == 0 {
        None
    } else if panes.last().pane_id@ == pane_id {
        Some(panes.last())
    } else {
        info_for(panes.drop_last(), pane_id)
    }
}

/// The fetched geometry snapshot for `tab_id` (the last fetched entry wins).
pub open spec fn layout_for(layouts: Seq<PaneLayoutSnapshot>, tab_id: Seq<char>) -> Option<
    PaneLayoutSnapshot,
>
    decreases layouts.len(),
{
    if layouts.len() == 0 {
        None
    } else if layouts.last().tab_id@ == tab_id {
        Some(layouts.last())
    } else {
        layout_for(layouts.drop_last(), tab_id)
    }
}

/// Pane title: herdr `title`, else `label`, else empty.
pub open spec fn pane_title(info: Option<PaneInfo>) -> Seq<char> {
    match info {
        Some(i) => match i.title {
            Some(t) => t@,
            None => match i.label {
                Some(l) => l@,
                None => Seq::empty(),
            },
        },
        None => Seq::empty(),
    }
}

/// Pane working directory, empty when unknown.
pub open spec fn pane_cwd(info: Option<PaneInfo>) -> Seq<char> {
    match info {
        Some(i) => match i.cwd {
            Some(c) => c@,
            None => Seq::empty(),
        },
        None => Seq::empty(),
    }
}

/// `p` is the neutral form of layout pane `lp` (metadata `info`) in a tab whose
/// zoom flag is `zoomed`, with numeric ids taken from `ids`.
pub open spec fn pane_matches(
    p: PaneSnapshot,
    lp: PaneLayoutPane,
    info: Option<PaneInfo>,
    zoomed: bool,
    ids: Map<Seq<char>, u32>,
) -> bool {
    &&& ids.contains_key(lp.pane_id@)
    &&& p.id == ids[lp.pane_id@]
    &&& p.title@ == pane_title(info)
    &&& p.is_focused == lp.focused
    &&& !p.is_floating
    &&& !p.exited
    &&& p.command@ == Seq::<char>::empty()
    &&& p.cwd@ == pane_cwd(info)
    &&& p.x == lp.rect.x as u32
    &&& p.y == lp.rect.y as u32
    &&& p.rows == lp.rect.height as u32
    &&& p.cols == lp.rect.width as u32
    &&& !p.is_plugin
    &&& p.is_fullscreen == zoomed
}

/// The panes of `t` are the neutral forms of the panes in `l`.
pub open spec fn panes_match(
    t: TabSnapshot,
    l: PaneLayoutSnapshot,
    panes: Seq<PaneInfo>,
    pane_ids: Map<Seq<char>, u32>,
) -> bool {
    &&& t.panes.len() == l.panes.len()
    &&& forall|j: int|
        0 <= j < l.panes.len() ==> #[trigger] pane_matches(
            t.panes@[j],
            l.panes@[j],
            info_for(panes, l.panes@[j].pane_id@),
            l.zoomed,
            pane_ids,
        )
}

/// `t` is the neutral form of herdr tab `tab`.
pub open spec fn tab_matches(
    t: TabSnapshot,
    tab: TabInfo,
    layouts: Seq<PaneLayoutSnapshot>,
    panes: Seq<PaneInfo>,
    active_tab_id: Seq<char>,
    tab_ids: Map<Seq<char>, u64>,
    pane_ids: Map<Seq<char>, u32>,
) -> bool {
    &&& tab_ids.contains_key(tab.tab_id@)
    &&& t.tab_id == tab_ids[tab.tab_id@]
    &&& t.position == tab.number as u32
    &&& t.name@ == tab.label@
    &&& t.active == (tab.tab_id@ == active_tab_id)
    &&& !t.has_bell
    &&& t.panes_to_hide == 0
    &&& !t.floating_panes_visible
    &&& match layout_for(layouts, tab.tab_id@) {
        Some(l) => t.fullscreen_active == l.zoomed && panes_match(t, l, panes, pane_ids),
        None => !t.fullscreen_active && t.panes.len() == 0,
    }
}

/// The terminal id a pane is registered with: its listed terminal id,
/// empty when the pane was not listed.
pub open spec fn pane_term(info: Option<PaneInfo>) -> Seq<char> {
    match info {
        Some(i) => i.terminal_id@,
        None => Seq::empty(),
    }
}

/// The registrations of the listed panes, in listing order.
pub open spec fn listed_regs(panes: Seq<PaneInfo>) -> Seq<(Seq<char>, Seq<char>)> {
    panes.map_values(|p: PaneInfo| (p.pane_id@, p.terminal_id@))
}

/// The registrations of the panes of one fetched layout, in layout order.
pub open spec fn layout_regs(l: PaneLayoutSnapshot, panes: Seq<PaneInfo>) -> Seq<
    (Seq<char>, Seq<char>),
> {
    l.panes@.map_values(|lp: PaneLayoutPane| (lp.pane_id@, pane_term(info_for(panes, lp.pane_id@))))
}

/// The registrations made while transcoding one tab (none without geometry).
pub open spec fn tab_regs(tab: TabInfo, layouts: Seq<PaneLayoutSnapshot>, panes: Seq<PaneInfo>) -> Seq<
    (Seq<char>, Seq<char>),
> {
    match layout_for(layouts, tab.tab_id@) {
        Some(l) => layout_regs(l, panes),
        None => Seq::empty(),
    }
}

/// The registrations made while transcoding the tabs, in tab order.
pub open spec fn tabs_regs(
    tabs: Seq<TabInfo>,
    layouts: Seq<PaneLayoutSnapshot>,
    panes: Seq<PaneInfo>,
) -> Seq<(Seq<char>, Seq<char>)>
    decreases tabs.len(),
{
    if tabs.len() == 0 {
        Seq::empty()
    } else {
        tabs_regs(tabs.drop_last(), layouts, panes) + tab_regs(tabs.last(), layouts, panes)
    }
}

/// Every pane registration a transcode makes, in order: the listed panes,
/// then the panes of each tab's fetched layout.
pub open spec fn transcode_regs(
    tabs: Seq<TabInfo>,
    panes: Seq<PaneInfo>,
    layouts: Seq<PaneLayoutSnapshot>,
) -> Seq<(Seq<char>, Seq<char>)> {
    listed_regs(panes) + tabs_regs(tabs, layouts, panes)
}

/// The herdr tab ids, in tab order.
pub open spec fn tab_keys(tabs: Seq<TabInfo>) -> Seq<Seq<char>> {
    tabs.map_values(|t: TabInfo| t.tab_id@)
}

proof fn lemma_last_term_listed(panes: Seq<PaneInfo>, k: Seq<char>)
    requires
        seen(listed_regs(panes), k),
    ensures
        last_term(listed_regs(panes), k) == pane_term(info_for(panes, k)),
    decreases panes.len(),
{
    let r = listed_regs(panes);
    assert(r.drop_last() =~= listed_regs(panes.drop_last()));
    if panes.last().pane_id@ != k {
        let i = choose|i: int| 0 <= i < r.len() && #[trigger] r[i].0 == k;
        assert(i < r.len() - 1);
        assert(listed_regs(panes.drop_last())[i].0 == k);
        lemma_last_term_listed(panes.drop_last(), k);
    }
}

/// Every registration in `s` carries the pane's listed terminal id.
pub open spec fn follows_info(s: Seq<(Seq<char>, Seq<char>)>, panes: Seq<PaneInfo>) -> bool {
    forall|i: int| 0 <= i < s.len() ==> (#[trigger] s[i]).1 == pane_term(info_for(panes, s[i].0))
}

proof fn lemma_tabs_regs_follow(tabs: Seq<TabInfo>, layouts: Seq<PaneLayoutSnapshot>, panes: Seq<PaneInfo>)
    ensures
        follows_info(tabs_regs(tabs, layouts, panes), panes),
    decreases tabs.len(),
{
    if tabs.len() > 0 {
        lemma_tabs_regs_follow(tabs.drop_last(), layouts, panes);
        let a = tabs_regs(tabs.drop_last(), layouts, panes);
        let b = tab_regs(tabs.last(), layouts, panes);
        assert forall|i: int| 0 <= i < (a + b).len() implies (#[trigger] (a + b)[i]).1 == pane_term(
            info_for(panes, (a + b)[i].0),
        ) by {
            if i >= a.len() {
                assert((a + b)[i] == b[i - a.len()]);
            } else {
                assert((a + b)[i] == a[i]);
            }
        }
    }
}

proof fn lemma_last_term_follows(s: Seq<(Seq<char>, Seq<char>)>, panes: Seq<PaneInfo>, k: Seq<char>)
    requires
        follows_info(s, panes),
        seen(s, k),
    ensures
        last_term(s, k) == pane_term(info_for(panes, k)),
    decreases s.len(),
{
    if s.last().0 == k {
        assert(s[s.len() - 1] == s.last());
    } else {
        let i = choose|i: int| 0 <= i < s.len() && #[trigger] s[i].0 == k;
        assert(i < s.len() - 1);
        assert(s.drop_last()[i].0 == k);
        assert forall|j: int| 0 <= j < s.drop_last().len() implies (#[trigger] s.drop_last()[j]).1
            == pane_term(info_for(panes, s.drop_last()[j].0)) by {
            assert(s.drop_last()[j] == s[j]);
        }
        lemma_last_term_follows(s.drop_last(), panes, k);
    }
}

proof fn lemma_last_term_concat(a: Seq<(Seq<char>, Seq<char>)>, b: Seq<(Seq<char>, Seq<char>)>, k: Seq<char>)
    ensures
        last_term(a + b, k) == (if seen(b, k) {
            last_term(b, k)
        } else {
            last_term(a, k)
        }),
    decreases b.len(),
{
    if b.len() == 0 {
        assert(a + b =~= a);
    } else {
        assert((a + b).drop_last() =~= a + b.drop_last());
        assert((a + b).last() == b.last());
        lemma_last_term_concat(a, b.drop_last(), k);
        if b.last().0 == k {
            assert(b[b.len() - 1].0 == k);
        } else {
            if seen(b, k) {
                let i = choose|i: int| 0 <= i < b.len() && #[trigger] b[i].0 == k;
                assert(i < b.len() - 1);
                assert(b.drop_last()[i].0 == k);
            }
            if seen(b.drop_last(), k) {
                let i = choose|i: int| 0 <= i < b.drop_last().len() && #[trigger] b.drop_last()[i].0 == k;
                assert(b[i].0 == k);
            }
        }
    }
}

/// Of the registrations of a transcode, each listed pane's last one carries
/// its listed terminal id.
proof fn lemma_transcode_terms(tabs: Seq<TabInfo>, panes: Seq<PaneInfo>, layouts: Seq<PaneLayoutSnapshot>, i: int)
    requires
        0 <= i < panes.len(),
    ensures
        seen(transcode_regs(tabs, panes, layouts), panes[i].pane_id@),
        last_term(transcode_regs(tabs, panes, layouts), panes[i].pane_id@) == pane_term(
            info_for(panes, panes[i].pane_id@),
        ),
{
    let a = listed_regs(panes);
    let b = tabs_regs(tabs, layouts, panes);
    let k = panes[i].pane_id@;
    assert(a[i].0 == k);
    assert((a + b)[i] == a[i]);
    lemma_last_term_concat(a, b, k);
    if seen(b, k) {
        lemma_tabs_regs_follow(tabs, layouts, panes);
        lemma_last_term_follows(b, panes, k);
    } else {
        lemma_last_term_listed(panes, k);
    }
}

proof fn lemma_pane_matches_extends(
    p: PaneSnapshot,
    lp: PaneLayoutPane,
    info: Option<PaneInfo>,
    zoomed: bool,
    ids1: Map<Seq<char>, u32>,
    ids2: Map<Seq<char>, u32>,
)
    requires
        pane_matches(p, lp, info, zoomed, ids1),
        map_extends(ids1, ids2),
    ensures
        pane_matches(p, lp, info, zoomed, ids2),
{
    assert(ids1.contains_key(lp.pane_id@));
}

proof fn lemma_tab_matches_extends(
    t: TabSnapshot,
    tab: TabInfo,
    layouts: Seq<PaneLayoutSnapshot>,
    panes: Seq<PaneInfo>,
    active_tab_id: Seq<char>,
    tab_ids1: Map<Seq<char>, u64>,
    tab_ids2: Map<Seq<char>, u64>,
    pane_ids1: Map<Seq<char>, u32>,
    pane_ids2: Map<Seq<char>, u32>,
)
    requires
        tab_matches(t, tab, layouts, panes, active_tab_id, tab_ids1, pane_ids1),
        map_extends(tab_ids1, tab_ids2),
        map_extends(pane_ids1, pane_ids2),
    ensures
        tab_matches(t, tab, layouts, panes, active_tab_id, tab_ids2, pane_ids2),
{
    assert(tab_ids1.contains_key(tab.tab_id@));
    match layout_for(layouts, tab.tab_id@) {
        Some(l) => {
            assert forall|j: int| 0 <= j < l.panes.len() implies #[trigger] pane_matches(
                t.panes@[j],
                l.panes@[j],
                info_for(panes, l.panes@[j].pane_id@),
                l.zoomed,
                pane_ids2,
            ) by {
                lemma_pane_matches_extends(
                    t.panes@[j],
                    l.panes@[j],
                    info_for(panes, l.panes@[j].pane_id@),
                    l.zoomed,
                    pane_ids1,
                    pane_ids2,
                );
            }
        },
        None => {},
    }
}

/// The numeric ids of a transcoded tab resolve through consistent registries
/// to the herdr ids they were made from: the tab id to the herdr tab id, and
/// each pane id to the herdr pane id of the layout pane at the same place.
pub proof fn law_layout_ids_resolve(
    t: TabSnapshot,
    tab: TabInfo,
    layouts: Seq<PaneLayoutSnapshot>,
    panes: Seq<PaneInfo>,
    active_tab_id: Seq<char>,
    tm: TabModel,
    pm: PaneModel,
)
    requires
        tab_model_consistent(tm),
        pane_model_consistent(pm),
        tab_matches(t, tab, layouts, panes, active_tab_id, tm.1, pm.1),
    ensures
        tm.2.contains_key(t.tab_id),
        tm.2[t.tab_id] == tab.tab_id@,
        layout_for(layouts, tab.tab_id@) matches Some(l) ==> forall|j: int|
            0 <= j < l.panes.len() ==> {
                &&& pm.2.contains_key(#[trigger] t.panes@[j].id)
                &&& pm.2[t.panes@[j].id].0 == l.panes@[j].pane_id@
            },
{
    assert(tm.1.contains_key(tab.tab_id@));
    match layout_for(layouts, tab.tab_id@) {
        Some(l) => {
            assert forall|j: int| 0 <= j < l.panes.len() implies {
                &&& pm.2.contains_key(#[trigger] t.panes@[j].id)
                &&& pm.2[t.panes@[j].id].0 == l.panes@[j].pane_id@
            } by {
                assert(pane_matches(
                    t.panes@[j],
                    l.panes@[j],
                    info_for(panes, l.panes@[j].pane_id@),
                    l.zoomed,
                    pm.1,
                ));
                assert(pm.1.contains_key(l.panes@[j].pane_id@));
            }
        },
        None => {},
    }
}

proof fn lemma_info_for_last(panes: Seq<PaneInfo>, k: Seq<char>, m: int)
    requires
        0 <= m < panes.len(),
        panes[m].pane_id@ == k,
        forall|m2: int| m < m2 < panes.len() ==> (#[trigger] panes[m2]).pane_id@ != k,
    ensures
        info_for(panes, k) == Some(panes[m]),
    decreases panes.len(),
{
    if m < panes.len() - 1 {
        assert(panes[panes.len() - 1].pane_id@ != k);
        let d = panes.drop_last();
        assert forall|m2: int| m < m2 < d.len() implies (#[trigger] d[m2]).pane_id@ != k by {
            assert(d[m2] == panes[m2]);
        }
        lemma_info_for_last(d, k, m);
    }
}

proof fn lemma_info_for_unlisted(panes: Seq<PaneInfo>, k: Seq<char>)
    requires
        forall|m: int| 0 <= m < panes.len() ==> (#[trigger] panes[m]).pane_id@ != k,
    ensures
        info_for(panes, k) is None,
    decreases panes.len(),
{
    if panes.len() > 0 {
        assert(panes[panes.len() - 1].pane_id@ != k);
        let d = panes.drop_last();
        assert forall|m: int| 0 <= m < d.len() implies (#[trigger] d[m]).pane_id@ != k by {
            assert(d[m] == panes[m]);
        }
        lemma_info_for_unlisted(d, k);
    }
}

proof fn lemma_layout_for_last(layouts: Seq<PaneLayoutSnapshot>, k: Seq<char>, li: int)
    requires
        0 <= li < layouts.len(),
        layouts[li].tab_id@ == k,
        forall|l2: int| li < l2 < layouts.len() ==> (#[trigger] layouts[l2]).tab_id@ != k,
    ensures
        layout_for(layouts, k) == Some(layouts[li]),
    decreases layouts.len(),
{
    if li < layouts.len() - 1 {
        assert(layouts[layouts.len() - 1].tab_id@ != k);
        let d = layouts.drop_last();
        assert forall|l2: int| li < l2 < d.len() implies (#[trigger] d[l2]).tab_id@ != k by {
            assert(d[l2] == layouts[l2]);
        }
        lemma_layout_for_last(d, k, li);
    }
}

/// A transcoded tab, against the last fetched layout `layouts[li]` of its
/// herdr tab: it carries the herdr tab's number, label and active flag, its
/// zoom is the layout's, and its `j`-th pane is the layout's `j`-th pane
/// with the pane's registered numeric id, its focus flag and its rectangle
/// (x, y, height as rows, width as columns); such a pane is never a plugin,
/// floating or exited, and is fullscreen exactly when the layout is zoomed.
/// A pane that no `pane.list` entry names has an empty title and cwd.
pub proof fn law_transcoded_pane_geometry(
    t: TabSnapshot,
    tab: TabInfo,
    layouts: Seq<PaneLayoutSnapshot>,
    panes: Seq<PaneInfo>,
    active_tab_id: Seq<char>,
    tab_ids: Map<Seq<char>, u64>,
    pane_ids: Map<Seq<char>, u32>,
    li: int,
    j: int,
)
    requires
        tab_matches(t, tab, layouts, panes, active_tab_id, tab_ids, pane_ids),
        0 <= li < layouts.len(),
        layouts[li].tab_id@ == tab.tab_id@,
        forall|l2: int| li < l2 < layouts.len() ==> (#[trigger] layouts[l2]).tab_id@ != tab.tab_id@,
        0 <= j < layouts[li].panes.len(),
    ensures
        t.tab_id == tab_ids[tab.tab_id@],
        t.position == tab.number as u32,
        t.name@ == tab.label@,
        t.active == (tab.tab_id@ == active_tab_id),
        t.fullscreen_active == layouts[li].zoomed,
        t.panes.len() == layouts[li].panes.len(),
        ({
            let q = layouts[li].panes@[j];
            let p = t.panes@[j];
            &&& p.id == pane_ids[q.pane_id@]
            &&& p.is_focused == q.focused
            &&& p.x == q.rect.x as u32
            &&& p.y == q.rect.y as u32
            &&& p.rows == q.rect.height as u32
            &&& p.cols == q.rect.width as u32
            &&& !p.is_plugin
            &&& !p.is_floating
            &&& !p.exited
            &&& p.is_fullscreen == layouts[li].zoomed
            &&& (forall|m: int| 0 <= m < panes.len() ==> (#[trigger] panes[m]).pane_id@ != q.pane_id@)
                ==> p.title@ == Seq::<char>::empty() && p.cwd@ == Seq::<char>::empty()
        }),
{
    lemma_layout_for_last(layouts, tab.tab_id@, li);
    let l = layouts[li];
    let q = l.panes@[j];
    assert(pane_matches(t.panes@[j], q, info_for(panes, q.pane_id@), l.zoomed, pane_ids));
    if forall|m: int| 0 <= m < panes.len() ==> (#[trigger] panes[m]).pane_id@ != q.pane_id@ {
        lemma_info_for_unlisted(panes, q.pane_id@);
    }
}

/// A transcoded pane's title and cwd come from the last `pane.list` entry
/// `panes[m]` naming it: the title is herdr's title when present, else its
/// label when present, else empty; the cwd is herdr's cwd, else empty.
pub proof fn law_transcoded_pane_title(
    t: TabSnapshot,
    tab: TabInfo,
    layouts: Seq<PaneLayoutSnapshot>,
    panes: Seq<PaneInfo>,
    active_tab_id: Seq<char>,
    tab_ids: Map<Seq<char>, u64>,
    pane_ids: Map<Seq<char>, u32>,
    li: int,
    j: int,
    m: int,
)
    requires
        tab_matches(t, tab, layouts, panes, active_tab_id, tab_ids, pane_ids),
        0 <= li < layouts.len(),
        layouts[li].tab_id@ == tab.tab_id@,
        forall|l2: int| li < l2 < layouts.len() ==> (#[trigger] layouts[l2]).tab_id@ != tab.tab_id@,
        0 <= j < layouts[li].panes.len(),
        0 <= m < panes.len(),
        panes[m].pane_id@ == layouts[li].panes@[j].pane_id@,
        forall|m2: int| m < m2 < panes.len() ==> (#[trigger] panes[m2]).pane_id@ != layouts[li].panes@[j].pane_id@,
    ensures
        panes[m].title matches Some(x) ==> t.panes@[j].title@ == x@,
        panes[m].title is None && panes[m].label is Some ==> t.panes@[j].title@ == panes[m].label->0@,
        panes[m].title is None && panes[m].label is None ==> t.panes@[j].title@ == Seq::<char>::empty(),
        panes[m].cwd matches Some(c) ==> t.panes@[j].cwd@ == c@,
        panes[m].cwd is None ==> t.panes@[j].cwd@ == Seq::<char>::empty(),
{
    lemma_layout_for_last(layouts, tab.tab_id@, li);
    let l = layouts[li];
    let q = l.panes@[j];
    lemma_info_for_last(panes, q.pane_id@, m);
    assert(pane_matches(t.panes@[j], q, info_for(panes, q.pane_id@), l.zoomed, pane_ids));
}

/// What registering the listed panes leaves in a consistent registry that it
/// did not exhaust: each listed pane resolves to its listed terminal id.
pub proof fn lemma_listed_registrations(pm: PaneModel, panes: Seq<PaneInfo>)
    ensures
        pane_model_consistent(pm) && pane_steps(pm, listed_regs(panes)).0 < u32::MAX ==> {
            let f = pane_steps(pm, listed_regs(panes));
            &&& pane_model_consistent(f)
            &&& forall|i: int|
                0 <= i < panes.len() ==> #[trigger] f.2[f.1[panes[i].pane_id@]] == (
                    panes[i].pane_id@,
                    pane_term(info_for(panes, panes[i].pane_id@)),
                )
        },
{
    let s = listed_regs(panes);
    if pane_model_consistent(pm) && pane_steps(pm, s).0 < u32::MAX {
        lemma_pane_steps(pm, s);
        let f = pane_steps(pm, s);
        assert forall|i: int| 0 <= i < panes.len() implies #[trigger] f.2[f.1[panes[i].pane_id@]] == (
            panes[i].pane_id@,
            pane_term(info_for(panes, panes[i].pane_id@)),
        ) by {
            assert(s[i].0 == panes[i].pane_id@);
            lemma_last_term_listed(panes, panes[i].pane_id@);
        }
    }
}

/// What a transcode leaves in consistent registries that it did not exhaust:
/// each listed pane resolves to its listed terminal id, each tab to its
/// herdr tab id.
proof fn lemma_transcode_registries(
    pm: PaneModel,
    tm: TabModel,
    tabs: Seq<TabInfo>,
    panes: Seq<PaneInfo>,
    layouts: Seq<PaneLayoutSnapshot>,
)
    ensures
        pane_model_consistent(pm) && pane_steps(pm, transcode_regs(tabs, panes, layouts)).0
            < u32::MAX ==> {
            let f = pane_steps(pm, transcode_regs(tabs, panes, layouts));
            &&& pane_model_consistent(f)
            &&& forall|i: int|
                0 <= i < panes.len() ==> #[trigger] f.2[f.1[panes[i].pane_id@]] == (
                    panes[i].pane_id@,
                    pane_term(info_for(panes, panes[i].pane_id@)),
                )
        },
        tab_model_consistent(tm) && tab_steps(tm, tab_keys(tabs)).0 < u64::MAX ==> {
            let f = tab_steps(tm, tab_keys(tabs));
            &&& tab_model_consistent(f)
            &&& forall|i: int| 0 <= i < tabs.len() ==> #[trigger] f.2[f.1[tabs[i].tab_id@]] == tabs[i].tab_id@
        },
{
    let s = transcode_regs(tabs, panes, layouts);
    if pane_model_consistent(pm) && pane_steps(pm, s).0 < u32::MAX {
        lemma_pane_steps(pm, s);
        let f = pane_steps(pm, s);
        assert forall|i: int| 0 <= i < panes.len() implies #[trigger] f.2[f.1[panes[i].pane_id@]] == (
            panes[i].pane_id@,
            pane_term(info_for(panes, panes[i].pane_id@)),
        ) by {
            lemma_transcode_terms(tabs, panes, layouts, i);
        }
    }
    let ks = tab_keys(tabs);
    if tab_model_consistent(tm) && tab_steps(tm, ks).0 < u64::MAX {
        lemma_tab_steps(tm, ks);
        let f = tab_steps(tm, ks);
        assert forall|i: int| 0 <= i < tabs.len() implies #[trigger] f.2[f.1[tabs[i].tab_id@]]
            == tabs[i].tab_id@ by {
            assert(ks[i] == tabs[i].tab_id@);
            assert(tab_seen(ks, tabs[i].tab_id@));
            assert(f.1.contains_key(tabs[i].tab_id@));
        }
    }
}

/// Index of the pane metadata for `pane_id` (the last listed entry).
fn find_info(panes: &Vec<PaneInfo>, pane_id: &String) -> (r: Option<usize>)
    ensures
        match r {
            Some(i) => i < panes.len() && info_for(panes@, pane_id@) == Some(panes@[i as int]),
            None => info_for(panes@, pane_id@) is None,
        },
{
    let mut i = panes.len();
    assert(panes@.subrange(0, i as int) =~= panes@);
    while i > 0
        invariant
            i <= panes.len(),
            info_for(panes@, pane_id@) == info_for(panes@.subrange(0, i as int), pane_id@),
        decreases i,
    {
        let ghost prefix = panes@.subrange(0, i as int);
        i = i - 1;
        assert(prefix.drop_last() =~= panes@.subrange(0, i as int));
        if panes[i].pane_id == *pane_id {
            return Some(i);
        }
    }
    None
}

/// Index of the fetched layout for `tab_id` (the last fetched entry).
pub fn find_layout(layouts: &Vec<PaneLayoutSnapshot>, tab_id: &String) -> (r: Option<usize>)
    ensures
        match r {
            Some(i) => i < layouts.len() && layout_for(layouts@, tab_id@) == Some(
                layouts@[i as int],
            ),
            None => layout_for(layouts@, tab_id@) is None,
        },
{
    let mut i = layouts.len();
    assert(layouts@.subrange(0, i as int) =~= layouts@);
    while i > 0
        invariant
            i <= layouts.len(),
            layout_for(layouts@, tab_id@) == layout_for(layouts@.subrange(0, i as int), tab_id@),
        decreases i,
    {
        let ghost prefix = layouts@.subrange(0, i as int);
        i = i - 1;
        assert(prefix.drop_last() =~= layouts@.subrange(0, i as int));
        if layouts[i].tab_id == *tab_id {
            return Some(i);
        }
    }
    None
}

/// The neutral form of one layout pane, registering its herdr id.
fn transcode_pane(
    lp: &PaneLayoutPane,
    panes: &Vec<PaneInfo>,
    zoomed: bool,
    pane_reg: &mut HerdrPaneRegistry,
) -> (p: PaneSnapshot)
    ensures
        pane_matches(p, *lp, info_for(panes@, lp.pane_id@), zoomed, final(pane_reg).ids()),
        map_extends(old(pane_reg).ids(), final(pane_reg).ids()),
        final(pane_reg).model() == pane_step(
            old(pane_reg).model(),
            lp.pane_id@,
            pane_term(info_for(panes@, lp.pane_id@)),
        ),
{
    let info = find_info(panes, &lp.pane_id);
    let empty = String::new();
    let (id, title, cwd) = match info {
        Some(ii) => {
            let pi = &panes[ii];
            let id = pane_reg.assign_or_get(lp.pane_id.as_str(), pi.terminal_id.as_str());
            let title = match &pi.title {
                Some(t) => t.clone(),
                None => match &pi.label {
                    Some(l) => l.clone(),
                    None => String::new(),
                },
            };
            let cwd = match &pi.cwd {
                Some(c) => c.clone(),
                None => String::new(),
            };
            (id, title, cwd)
        },
        None => {
            let id = pane_reg.assign_or_get(lp.pane_id.as_str(), empty.as_str());
            (id, String::new(), String::new())
        },
    };
    assert(pane_reg.ids().contains_key(lp.pane_id@));
    PaneSnapshot {
        id,
        title,
        is_focused: lp.focused,
        is_floating: false,
        exited: false,
        command: String::new(),
        cwd,
        x: lp.rect.x as u32,
        y: lp.rect.y as u32,
        rows: lp.rect.height as u32,
        cols: lp.rect.width as u32,
        is_plugin: false,
        is_fullscreen: zoomed,
    }
}

/// Transcode herdr's per-tab layouts plus pane metadata into the neutral
/// [`LayoutSnapshot`].
///
/// Every listed pane is registered first (so its `terminal_id` is known even
/// when its tab's geometry was not fetched); each tab then takes its geometry
/// from the fetched layout whose `tab_id` matches (the last such wins). The
/// tab's `active` flag is `tab_id == active_tab_id` (the workspace's own active
/// tab, not herdr's global focus).
pub fn transcode_layout(
    tabs: &Vec<TabInfo>,
    panes: &Vec<PaneInfo>,
    tab_layouts: &Vec<PaneLayoutSnapshot>,
    active_tab_id: &str,
    pane_reg: &mut HerdrPaneRegistry,
    tab_reg: &mut HerdrTabRegistry,
) -> (snap: LayoutSnapshot)
    ensures
        snap.tabs.len() == tabs.len(),
        forall|i: int|
            0 <= i < tabs.len() ==> #[trigger] tab_matches(
                snap.tabs@[i],
                tabs@[i],
                tab_layouts@,
                panes@,
                active_tab_id@,
                final(tab_reg).ids(),
                final(pane_reg).ids(),
            ),
        map_extends(old(pane_reg).ids(), final(pane_reg).ids()),
        map_extends(old(tab_reg).ids(), final(tab_reg).ids()),
        forall|i: int|
            0 <= i < panes.len() ==> final(pane_reg).ids().contains_key(#[trigger] panes@[i].pane_id@),
        final(pane_reg).model() == pane_steps(
            old(pane_reg).model(),
            transcode_regs(tabs@, panes@, tab_layouts@),
        ),
        final(tab_reg).model() == tab_steps(old(tab_reg).model(), tab_keys(tabs@)),
        old(pane_reg).consistent() && final(pane_reg).next() < u32::MAX ==> {
            &&& final(pane_reg).consistent()
            &&& forall|i: int|
                0 <= i < panes.len() ==> #[trigger] final(pane_reg).entries()[final(pane_reg).ids()[panes@[i].pane_id@]] == (
                    panes@[i].pane_id@,
                    pane_term(info_for(panes@, panes@[i].pane_id@)),
                )
        },
        old(tab_reg).consistent() && final(tab_reg).next() < u64::MAX ==> {
            &&& final(tab_reg).consistent()
            &&& forall|i: int|
                0 <= i < tabs.len() ==> #[trigger] final(tab_reg).entries()[final(tab_reg).ids()[tabs@[i].tab_id@]] == tabs@[i].tab_id@
        },
{
    let mut k: usize = 0;
    while k < panes.len()
        invariant
            k <= panes.len(),
            map_extends(old(pane_reg).ids(), pane_reg.ids()),
            forall|i: int| 0 <= i < k ==> pane_reg.ids().contains_key(#[trigger] panes@[i].pane_id@),
            pane_reg.model() == pane_steps(old(pane_reg).model(), listed_regs(panes@.take(k as int))),
        decreases panes.len() - k,
    {
        proof {
            assert(listed_regs(panes@.take(k + 1)).drop_last() =~= listed_regs(panes@.take(k as int)));
            assert(listed_regs(panes@.take(k + 1)).last() == (
                panes@[k as int].pane_id@,
                panes@[k as int].terminal_id@,
            ));
        }
        pane_reg.assign_or_get(panes[k].pane_id.as_str(), panes[k].terminal_id.as_str());
        k = k + 1;
    }
    assert(panes@.take(panes.len() as int) =~= panes@);
    let active = active_tab_id.to_owned();
    let mut out: Vec<TabSnapshot> = Vec::new();
    let mut i: usize = 0;
    while i < tabs.len()
        invariant
            i <= tabs.len(),
            out.len() == i,
            active@ == active_tab_id@,
            map_extends(old(pane_reg).ids(), pane_reg.ids()),
            map_extends(old(tab_reg).ids(), tab_reg.ids()),
            forall|m: int|
                0 <= m < panes.len() ==> pane_reg.ids().contains_key(#[trigger] panes@[m].pane_id@),
            pane_reg.model() == pane_steps(
                old(pane_reg).model(),
                listed_regs(panes@) + tabs_regs(tabs@.take(i as int), tab_layouts@, panes@),
            ),
            tab_reg.model() == tab_steps(old(tab_reg).model(), tab_keys(tabs@.take(i as int))),
            forall|m: int|
                0 <= m < i ==> #[trigger] tab_matches(
                    out@[m],
                    tabs@[m],
                    tab_layouts@,
                    panes@,
                    active_tab_id@,
                    tab_reg.ids(),
                    pane_reg.ids(),
                ),
        decreases tabs.len() - i,
    {
        let tab = &tabs[i];
        let ghost tab_ids0 = tab_reg.ids();
        let ghost pane_ids0 = pane_reg.ids();
        let ghost base = listed_regs(panes@) + tabs_regs(tabs@.take(i as int), tab_layouts@, panes@);
        proof {
            assert(tab_keys(tabs@.take(i + 1)).drop_last() =~= tab_keys(tabs@.take(i as int)));
            assert(tab_keys(tabs@.take(i + 1)).last() == tabs@[i as int].tab_id@);
            assert(tabs@.take(i + 1).drop_last() =~= tabs@.take(i as int));
            assert(tabs@.take(i + 1).last() == tabs@[i as int]);
            assert(listed_regs(panes@) + tabs_regs(tabs@.take(i + 1), tab_layouts@, panes@) =~= base
                + tab_regs(tabs@[i as int], tab_layouts@, panes@));
        }
        let tab_id = tab_reg.assign_or_get(tab.tab_id.as_str());
        let found = find_layout(tab_layouts, &tab.tab_id);
        let mut pane_snaps: Vec<PaneSnapshot> = Vec::new();
        let mut zoomed = false;
        match found {
            Some(li) => {
                let l = &tab_layouts[li];
                zoomed = l.zoomed;
                let mut j: usize = 0;
                while j < l.panes.len()
                    invariant
                        j <= l.panes.len(),
                        pane_snaps.len() == j,
                        map_extends(pane_ids0, pane_reg.ids()),
                        map_extends(old(pane_reg).ids(), pane_reg.ids()),
                        pane_reg.model() == pane_steps(
                            old(pane_reg).model(),
                            base + layout_regs(*l, panes@).take(j as int),
                        ),
                        forall|jj: int|
                            0 <= jj < j ==> #[trigger] pane_matches(
                                pane_snaps@[jj],
                                l.panes@[jj],
                                info_for(panes@, l.panes@[jj].pane_id@),
                                l.zoomed,
                                pane_reg.ids(),
                            ),
                    decreases l.panes.len() - j,
                {
                    let ghost ids_before = pane_reg.ids();
                    proof {
                        let lr = layout_regs(*l, panes@);
                        assert((base + lr.take(j + 1)).drop_last() =~= base + lr.take(j as int));
                        assert((base + lr.take(j + 1)).last() == lr[j as int]);
                    }
                    let p = transcode_pane(&l.panes[j], panes, l.zoomed, pane_reg);
                    proof {
                        assert forall|jj: int| 0 <= jj < j implies #[trigger] pane_matches(
                            pane_snaps@[jj],
                            l.panes@[jj],
                            info_for(panes@, l.panes@[jj].pane_id@),
                            l.zoomed,
                            pane_reg.ids(),
                        ) by {
                            lemma_pane_matches_extends(
                                pane_snaps@[jj],
                                l.panes@[jj],
                                info_for(panes@, l.panes@[jj].pane_id@),
                                l.zoomed,
                                ids_before,
                                pane_reg.ids(),
                            );
                        }
                    }
                    pane_snaps.push(p);
                    j = j + 1;
                }
                assert(layout_regs(*l, panes@).take(l.panes.len() as int) =~= layout_regs(*l, panes@));
            },
            None => {
                assert(base + Seq::<(Seq<char>, Seq<char>)>::empty() =~= base);
            },
        }
        let t = TabSnapshot {
            tab_id,
            position: tab.number as u32,
            name: tab.label.clone(),
            active: tab.tab_id == active,
            has_bell: false,
            panes_to_hide: 0,
            fullscreen_active: zoomed,
            floating_panes_visible: false,
            panes: pane_snaps,
        };
        proof {
            assert forall|m: int| 0 <= m < i implies #[trigger] tab_matches(
                out@[m],
                tabs@[m],
                tab_layouts@,
                panes@,
                active_tab_id@,
                tab_reg.ids(),
                pane_reg.ids(),
            ) by {
                lemma_tab_matches_extends(
                    out@[m],
                    tabs@[m],
                    tab_layouts@,
                    panes@,
                    active_tab_id@,
                    tab_ids0,
                    tab_reg.ids(),
                    pane_ids0,
                    pane_reg.ids(),
                );
            }
            assert(tab_matches(
                t,
                tabs@[i as int],
                tab_layouts@,
                panes@,
                active_tab_id@,
                tab_reg.ids(),
                pane_reg.ids(),
            ));
        }
        out.push(t);
        i = i + 1;
    }
    proof {
        assert(tabs@.take(tabs.len() as int) =~= tabs@);
        lemma_transcode_registries(
            old(pane_reg).model(),
            old(tab_reg).model(),
            tabs@,
            panes@,
            tab_layouts@,
        );
        let fp = pane_reg.model();
        let ft = tab_reg.model();
        if old(pane_reg).consistent() && pane_reg.next() < u32::MAX {
            assert forall|m: int| 0 <= m < panes.len() implies #[trigger] pane_reg.entries()[pane_reg.ids()[panes@[m].pane_id@]]
                == (panes@[m].pane_id@, pane_term(info_for(panes@, panes@[m].pane_id@))) by {
                assert(fp.2[fp.1[panes@[m].pane_id@]] == (
                    panes@[m].pane_id@,
                    pane_term(info_for(panes@, panes@[m].pane_id@)),
                ));
            }
        }
        if old(tab_reg).consistent() && tab_reg.next() < u64::MAX {
            assert forall|m: int| 0 <= m < tabs.len() implies #[trigger] tab_reg.entries()[tab_reg.ids()[tabs@[m].tab_id@]]
                == tabs@[m].tab_id@ by {
                assert(ft.2[ft.1[tabs@[m].tab_id@]] == tabs@[m].tab_id@);
            }
        }
    }
    LayoutSnapshot { tabs: out }
}

} // verus!
