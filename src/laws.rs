//! Properties of the window lifecycle that relate several operations.

use vstd::prelude::*;
use crate::config::{WindowConfig, WindowPlan};
use crate::factory::plan_for;
use crate::label::{first_primary, kind_of, LabelKind, LabelView};
use crate::manager::{
    children_of, is_next_primary, lemma_children_of, lemma_links_without, lemma_parent_of_link,
    lemma_parent_of_none, lemma_windows_without, links_without, manager_wf, parent_of,
    should_save_geometry, windows_without, ManagerView,
};

verus! {

/// The primary labels `0..n`, in order.
pub open spec fn primaries_upto(n: u64) -> Seq<LabelView> {
    Seq::new(n as nat, |i: int| LabelView::Primary(i as u64))
}

/// There is only one next primary label for a given registry.
pub proof fn law_next_primary_is_unique(ws: Seq<LabelView>, a: u64, b: u64)
    requires
        is_next_primary(ws, a),
        is_next_primary(ws, b),
    ensures
        a == b,
{
    if a < b {
        assert(ws.contains(LabelView::Primary(a)));
    } else if b < a {
        assert(ws.contains(LabelView::Primary(b)));
    }
}

/// Primary windows opened one after another are numbered `0, 1, 2, …`: when
/// the open windows are the primaries `0..n`, the next label is `n`, and
/// registering it leaves the primaries `0..n+1` open. The label handed out is
/// never one that is open.
pub proof fn law_primaries_are_sequential(ws: Seq<LabelView>, n: u64)
    requires
        n < u64::MAX,
    ensures
        is_next_primary(primaries_upto(n), n),
        primaries_upto(n).push(LabelView::Primary(n)) == primaries_upto((n + 1) as u64),
        is_next_primary(ws, n) ==> !ws.contains(LabelView::Primary(n)),
{
    let s = primaries_upto(n);
    assert forall|m: u64| m < n implies #[trigger] s.contains(LabelView::Primary(m)) by {
        assert(s[m as int] == LabelView::Primary(m));
    }
    if s.contains(LabelView::Primary(n)) {
        let i = choose|i: int| 0 <= i < s.len() && s[i] == LabelView::Primary(n);
        assert(s[i] == LabelView::Primary(i as u64));
    }
    assert(primaries_upto(n).push(LabelView::Primary(n)) =~= primaries_upto((n + 1) as u64));
}

/// A request for a label that is open never builds a second window: it
/// focuses the open one.
pub proof fn law_duplicate_creation_focuses(v: ManagerView, c: WindowConfig, r: WindowPlan)
    requires
        v.windows.contains(c.label@),
        plan_for(r, c, v.windows.contains(c.label@)),
    ensures
        r matches WindowPlan::FocusExisting(l) && l@ == c.label@,
        !(r is Build),
{
}

/// The home window's geometry is saved when it closes alone; never while
/// another window is open; never for a secondary window.
pub proof fn law_save_only_for_lone_home_window(l: LabelView, n: nat)
    ensures
        should_save_geometry(first_primary(), 1),
        n > 1 ==> !should_save_geometry(l, n),
        kind_of(l) == LabelKind::Secondary ==> !should_save_geometry(l, n),
        l != first_primary() ==> !should_save_geometry(l, n),
{
}

/// When a child is destroyed while its parent is open, the one window to
/// focus is that parent. Once the parent has been destroyed, destroying the
/// child focuses nothing.
pub proof fn law_destroyed_child_focuses_parent(v: ManagerView, i: int)
    requires
        manager_wf(v),
        0 <= i < v.links.len(),
    ensures
        parent_of(v.links, v.links[i].1) == Some(v.links[i].0),
        v.windows.contains(v.links[i].0),
        parent_of(links_without(v.links, v.links[i].0), v.links[i].1) is None,
{
    let (p, c) = v.links[i];
    assert(v.windows.contains(v.links[i].0));
    lemma_parent_of_link(v.links, i);
    let rest = links_without(v.links, p);
    lemma_links_without(v.links, p);
    assert forall|j: int| 0 <= j < rest.len() implies rest[j].1 != c by {
        assert(rest.contains(rest[j]));
        if rest[j].1 == c {
            let k = choose|k: int| 0 <= k < v.links.len() && v.links[k] == rest[j];
            if k != i {
                if k < i {
                    assert(v.links[k].1 != v.links[i].1);
                } else {
                    assert(v.links[i].1 != v.links[k].1);
                }
            }
        }
    }
    lemma_parent_of_none(rest, c);
}

/// Closing a parent closes each of its children: every linked child is
/// among the windows to close, and once destroyed it is no longer open.
pub proof fn law_close_cascades_to_children(v: ManagerView, p: LabelView, c: LabelView)
    requires
        manager_wf(v),
        v.links.contains((p, c)),
    ensures
        children_of(v.links, p).contains(c),
        !windows_without(v.windows, c).contains(c),
{
    lemma_children_of(v.links, p);
    lemma_windows_without(v.windows, c);
}

/// At start-up no window is open, so the window whose geometry is restored
/// is the home window.
pub proof fn law_ready_opens_home_window(n: u64)
    requires
        is_next_primary(Seq::<LabelView>::empty(), n),
    ensures
        LabelView::Primary(n) == first_primary(),
{
    if n > 0 {
        assert(Seq::<LabelView>::empty().contains(LabelView::Primary(0)));
    }
}

/// Focus and close cascades only ever address open windows: every child
/// linked to a parent is open.
pub proof fn law_linked_children_are_open(v: ManagerView, p: LabelView, c: LabelView)
    requires
        manager_wf(v),
        children_of(v.links, p).contains(c),
    ensures
        v.windows.contains(c),
{
    lemma_children_of(v.links, p);
    let i = choose|i: int| 0 <= i < v.links.len() && v.links[i] == (p, c);
    assert(v.windows.contains(v.links[i].0));
}

} // verus!
