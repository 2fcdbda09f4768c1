//! The window registry, the parent/child links between windows, and the
//! decisions taken on each lifecycle event.

use vstd::prelude::*;
use vstd::set_lib::{lemma_int_range, lemma_len_subset, set_int_range};
use crate::config::WindowPlan;
use crate::factory::{is_main_window, START_URL};
use crate::label::{first_primary, kind_of, label_text, same_text, LabelKind, LabelView, WindowLabel};

verus! {

/// A child window created from a parent; used only to correlate events.
pub struct ChildLink {
    pub parent: WindowLabel,
    pub child: WindowLabel,
}

/// Mathematical state of a [`WindowManager`].
pub struct ManagerView {
    /// Open windows, in order of registration.
    pub windows: Seq<LabelView>,
    /// `(parent, child)` pairs, in order of creation.
    pub links: Seq<(LabelView, LabelView)>,
    /// Whether the application-ready event has been handled.
    pub ready_handled: bool,
}

/// Registry of open windows plus the subscription table that relates
/// children to their parents.
pub struct WindowManager {
    windows: Vec<WindowLabel>,
    links: Vec<ChildLink>,
    ready_handled: bool,
}

pub open spec fn no_duplicates(ws: Seq<LabelView>) -> bool {
    forall|i: int, j: int| 0 <= i < j < ws.len() ==> ws[i] != ws[j]
}

/// Every link joins two open windows, and no window is the child of two links.
pub open spec fn links_wf(ws: Seq<LabelView>, links: Seq<(LabelView, LabelView)>) -> bool {
    &&& forall|i: int| 0 <= i < links.len() ==> ws.contains(#[trigger] links[i].0) && ws.contains(
        links[i].1,
    )
    &&& forall|i: int, j: int| 0 <= i < j < links.len() ==> links[i].1 != links[j].1
}

pub open spec fn manager_wf(v: ManagerView) -> bool {
    no_duplicates(v.windows) && links_wf(v.windows, v.links)
}

/// Children linked to `p`, in link order.
pub open spec fn children_of(links: Seq<(LabelView, LabelView)>, p: LabelView) -> Seq<LabelView>
    decreases links.len(),
{
    if links.len() == 0 {
        Seq::empty()
    } else {
        let rest = children_of(links.drop_last(), p);
        if links.last().0 == p {
            rest.push(links.last().1)
        } else {
            rest
        }
    }
}

/// The parent that `c` was created from, if a link records one.
pub open spec fn parent_of(links: Seq<(LabelView, LabelView)>, c: LabelView) -> Option<LabelView>
    decreases links.len(),
{
    if links.len() == 0 {
        None
    } else if links.last().1 == c {
        Some(links.last().0)
    } else {
        parent_of(links.drop_last(), c)
    }
}

/// Links that do not involve `l` at either end.
pub open spec fn links_without(links: Seq<(LabelView, LabelView)>, l: LabelView) -> Seq<
    (LabelView, LabelView),
>
    decreases links.len(),
{
    if links.len() == 0 {
        Seq::empty()
    } else {
        let rest = links_without(links.drop_last(), l);
        if links.last().0 == l || links.last().1 == l {
            rest
        } else {
            rest.push(links.last())
        }
    }
}

/// The windows other than `l`, order kept.
pub open spec fn windows_without(ws: Seq<LabelView>, l: LabelView) -> Seq<LabelView>
    decreases ws.len(),
{
    if ws.len() == 0 {
        Seq::empty()
    } else {
        let rest = windows_without(ws.drop_last(), l);
        if ws.last() == l {
            rest
        } else {
            rest.push(ws.last())
        }
    }
}

/// `n` is the smallest index whose primary label is not open.
pub open spec fn is_next_primary(ws: Seq<LabelView>, n: u64) -> bool {
    &&& !ws.contains(LabelView::Primary(n))
    &&& forall|m: u64| m < n ==> #[trigger] ws.contains(LabelView::Primary(m))
}

/// Geometry of the home window is saved on a close request only for that
/// window, and only when no other window is open; the count still includes
/// the closing window.
pub open spec fn should_save_geometry(label: LabelView, open_count: nat) -> bool {
    &&& kind_of(label) != LabelKind::Secondary
    &&& !(open_count > 1)
    &&& label == first_primary()
}

pub open spec fn primary_index(l: LabelView) -> int {
    match l {
        LabelView::Primary(n) => n as int,
        LabelView::Secondary(_) => -1,
    }
}

/// If the primary labels `0..k` are all open, at least `k` windows are open.
pub proof fn lemma_open_primaries_bounded(ws: Seq<LabelView>, k: int)
    requires
        0 <= k <= u64::MAX as int + 1,
        forall|m: u64| (m as int) < k ==> #[trigger] ws.contains(LabelView::Primary(m)),
    ensures
        k <= ws.len(),
{
    let idx = ws.map_values(|l: LabelView| primary_index(l));
    let s = idx.to_set();
    idx.lemma_cardinality_of_set();
    lemma_int_range(0, k);
    assert forall|m: int| #[trigger] set_int_range(0, k).contains(m) implies s.contains(m) by {
        let p = LabelView::Primary(m as u64);
        assert(ws.contains(p));
        let i = choose|i: int| 0 <= i < ws.len() && ws[i] == p;
        assert(idx[i] == m);
    }
    lemma_len_subset(set_int_range(0, k), s);
}

proof fn lemma_contains_push<A>(s: Seq<A>, a: A, x: A)
    ensures
        s.push(a).contains(x) == (s.contains(x) || x == a),
{
    if s.contains(x) {
        let i = choose|i: int| 0 <= i < s.len() && s[i] == x;
        assert(s.push(a)[i] == x);
    }
    if x == a {
        assert(s.push(a)[s.len() as int] == x);
    }
    if s.push(a).contains(x) {
        let i = choose|i: int| 0 <= i < s.len() + 1 && s.push(a)[i] == x;
        if i < s.len() {
            assert(s[i] == x);
        }
    }
}

proof fn lemma_contains_last<A>(s: Seq<A>, x: A)
    requires
        s.len() > 0,
    ensures
        s.contains(x) == (s.drop_last().contains(x) || x == s.last()),
{
    assert(s =~= s.drop_last().push(s.last()));
    lemma_contains_push(s.drop_last(), s.last(), x);
}

/// What remains of `ws` without `l`: the same windows but `l`, and still
/// no label twice.
pub proof fn lemma_windows_without(ws: Seq<LabelView>, l: LabelView)
    ensures
        forall|x: LabelView| #[trigger] windows_without(ws, l).contains(x) == (ws.contains(x) && x
            != l),
        no_duplicates(ws) ==> no_duplicates(windows_without(ws, l)),
    decreases ws.len(),
{
    if ws.len() > 0 {
        let d = ws.drop_last();
        lemma_windows_without(d, l);
        let rest = windows_without(d, l);
        assert forall|x: LabelView| #[trigger] windows_without(ws, l).contains(x) == (ws.contains(x)
            && x != l) by {
            lemma_contains_last(ws, x);
            lemma_contains_push(rest, ws.last(), x);
        }
        if no_duplicates(ws) {
            assert(no_duplicates(d));
            if ws.last() != l {
                let r = rest.push(ws.last());
                assert forall|i: int, j: int| 0 <= i < j < r.len() implies r[i] != r[j] by {
                    if j == r.len() - 1 {
                        assert(rest.contains(r[i]));
                        let k = choose|k: int| 0 <= k < d.len() && d[k] == r[i];
                        assert(ws[k] == d[k]);
                    }
                }
            }
        }
    } else {
        assert forall|x: LabelView| #[trigger] windows_without(ws, l).contains(x) == (ws.contains(x)
            && x != l) by {}
    }
}

/// The links that survive the removal of `l`: exactly those not touching
/// `l`; no child gains a second parent.
pub proof fn lemma_links_without(links: Seq<(LabelView, LabelView)>, l: LabelView)
    ensures
        forall|k: (LabelView, LabelView)| #[trigger] links_without(links, l).contains(k) == (
        links.contains(k) && k.0 != l && k.1 != l),
        (forall|i: int, j: int| 0 <= i < j < links.len() ==> links[i].1 != links[j].1) ==> (forall|
            i: int,
            j: int,
        |
            0 <= i < j < links_without(links, l).len() ==> links_without(links, l)[i].1
                != links_without(links, l)[j].1),
    decreases links.len(),
{
    if links.len() > 0 {
        let d = links.drop_last();
        lemma_links_without(d, l);
        let rest = links_without(d, l);
        assert forall|k: (LabelView, LabelView)| #[trigger] links_without(links, l).contains(k) == (
        links.contains(k) && k.0 != l && k.1 != l) by {
            lemma_contains_last(links, k);
            lemma_contains_push(rest, links.last(), k);
        }
        if forall|i: int, j: int| 0 <= i < j < links.len() ==> links[i].1 != links[j].1 {
            assert(forall|i: int, j: int| 0 <= i < j < d.len() ==> d[i].1 != d[j].1);
            if !(links.last().0 == l || links.last().1 == l) {
                let r = rest.push(links.last());
                assert forall|i: int, j: int| 0 <= i < j < r.len() implies r[i].1 != r[j].1 by {
                    if j == r.len() - 1 {
                        assert(rest.contains(r[i]));
                        let k = choose|k: int| 0 <= k < d.len() && d[k] == r[i];
                        assert(links[k] == d[k]);
                    }
                }
            }
        }
    } else {
        assert forall|k: (LabelView, LabelView)| #[trigger] links_without(links, l).contains(k) == (
        links.contains(k) && k.0 != l && k.1 != l) by {}
    }
}

/// A link records the parent of its child.
pub proof fn lemma_parent_of_link(links: Seq<(LabelView, LabelView)>, i: int)
    requires
        0 <= i < links.len(),
        forall|a: int, b: int| 0 <= a < b < links.len() ==> links[a].1 != links[b].1,
    ensures
        parent_of(links, links[i].1) == Some(links[i].0),
    decreases links.len(),
{
    if i < links.len() - 1 {
        lemma_parent_of_link(links.drop_last(), i);
    }
}

/// Without a link for `c`, no parent is recorded.
pub proof fn lemma_parent_of_none(links: Seq<(LabelView, LabelView)>, c: LabelView)
    requires
        forall|i: int| 0 <= i < links.len() ==> links[i].1 != c,
    ensures
        parent_of(links, c) is None,
    decreases links.len(),
{
    if links.len() > 0 {
        lemma_parent_of_none(links.drop_last(), c);
    }
}

/// Every child linked to `p` is listed by `children_of`, and only those.
pub proof fn lemma_children_of(links: Seq<(LabelView, LabelView)>, p: LabelView)
    ensures
        forall|c: LabelView| #[trigger] children_of(links, p).contains(c) == links.contains((p, c)),
    decreases links.len(),
{
    if links.len() > 0 {
        let d = links.drop_last();
        lemma_children_of(d, p);
        assert forall|c: LabelView| #[trigger] children_of(links, p).contains(c) == links.contains(
            (p, c),
        ) by {
            lemma_contains_last(links, (p, c));
            lemma_contains_push(children_of(d, p), links.last().1, c);
        }
    } else {
        assert forall|c: LabelView| #[trigger] children_of(links, p).contains(c) == links.contains(
            (p, c),
        ) by {}
    }
}

impl View for WindowManager {
    type V = ManagerView;

    closed spec fn view(&self) -> ManagerView {
        ManagerView {
            windows: self.windows@.map_values(|l: WindowLabel| l@),
            links: self.links@.map_values(|k: ChildLink| (k.parent@, k.child@)),
            ready_handled: self.ready_handled,
        }
    }
}

impl WindowManager {
    pub closed spec fn wf(&self) -> bool {
        manager_wf(self@)
    }

    /// A registry with no window open and the ready event not yet seen.
    pub fn new() -> (r: WindowManager)
        ensures
            r.wf(),
            r@.windows == Seq::<LabelView>::empty(),
            r@.links == Seq::<(LabelView, LabelView)>::empty(),
            !r@.ready_handled,
    {
        let r = WindowManager { windows: Vec::new(), links: Vec::new(), ready_handled: false };
        assert(r@.windows =~= Seq::<LabelView>::empty());
        assert(r@.links =~= Seq::<(LabelView, LabelView)>::empty());
        r
    }

    /// Whether a window with this label is open.
    pub fn contains(&self, label: &WindowLabel) -> (r: bool)
        ensures
            r == self@.windows.contains(label@),
    {
        let mut i: usize = 0;
        while i < self.windows.len()
            invariant
                i <= self.windows@.len(),
                forall|j: int| 0 <= j < i ==> self@.windows[j] != label@,
            decreases self.windows@.len() - i,
        {
            if self.windows[i].same(label) {
                assert(self@.windows[i as int] == label@);
                return true;
            }
            i = i + 1;
        }
        false
    }

    /// Number of open windows.
    pub fn count(&self) -> (r: usize)
        ensures
            r == self@.windows.len(),
    {
        self.windows.len()
    }

    /// Whether some open window carries a label of this kind.
    pub fn contains_kind(&self, kind: LabelKind) -> (r: bool)
        ensures
            r == exists|i: int| 0 <= i < self@.windows.len() && kind_of(self@.windows[i]) == kind,
    {
        let mut i: usize = 0;
        while i < self.windows.len()
            invariant
                i <= self.windows@.len(),
                forall|j: int| 0 <= j < i ==> kind_of(self@.windows[j]) != kind,
            decreases self.windows@.len() - i,
        {
            if self.windows[i].kind() == kind {
                assert(kind_of(self@.windows[i as int]) == kind);
                return true;
            }
            i = i + 1;
        }
        false
    }

    /// The first primary label, counting from zero, that is not open.
    pub fn allocate_primary(&self) -> (r: WindowLabel)
        ensures
            r@ matches LabelView::Primary(n) && is_next_primary(self@.windows, n),
    {
        let len = self.windows.len();
        let mut n: u64 = 0;
        loop
            invariant
                len == self@.windows.len(),
                n <= len,
                forall|m: u64| m < n ==> #[trigger] self@.windows.contains(LabelView::Primary(m)),
            decreases len - n,
        {
            let candidate = WindowLabel::Primary(n);
            if !self.contains(&candidate) {
                return candidate;
            }
            proof {
                assert forall|m: u64| (m as int) < n + 1 implies #[trigger] self@.windows.contains(LabelView::Primary(m)) by {
                    if m == n {
                        assert(candidate@ == LabelView::Primary(m));
                    }
                }
                lemma_open_primaries_bounded(self@.windows, n + 1);
            }
            n = n + 1;
        }
    }
}

/// What to do when a window asks to close.
pub struct CloseResponse {
    /// Children to close along with it, in link order.
    pub close_children: Vec<WindowLabel>,
    /// Whether the home window's geometry is to be saved now.
    pub save_geometry: bool,
}

pub open spec fn labels_view(v: Seq<WindowLabel>) -> Seq<LabelView> {
    v.map_values(|l: WindowLabel| l@)
}

pub open spec fn option_view(o: Option<WindowLabel>) -> Option<LabelView> {
    match o {
        Some(l) => Some(l@),
        None => None,
    }
}

impl WindowManager {
    /// Children linked to `parent`, in link order.
    fn children_linked_to(&self, parent: &WindowLabel) -> (r: Vec<WindowLabel>)
        ensures
            labels_view(r@) == children_of(self@.links, parent@),
    {
        let mut out: Vec<WindowLabel> = Vec::new();
        let mut i: usize = 0;
        while i < self.links.len()
            invariant
                i <= self.links@.len(),
                labels_view(out@) == children_of(self@.links.subrange(0, i as int), parent@),
            decreases self.links@.len() - i,
        {
            let ghost before = out@;
            assert(self@.links.subrange(0, i + 1).drop_last() =~= self@.links.subrange(
                0,
                i as int,
            ));
            if self.links[i].parent.same(parent) {
                out.push(self.links[i].child.clone());
                assert(labels_view(out@) =~= labels_view(before).push(self@.links[i as int].1));
            }
            i = i + 1;
        }
        assert(self@.links.subrange(0, self.links@.len() as int) =~= self@.links);
        out
    }

    /// The parent recorded for `child`, if any.
    fn recorded_parent(&self, child: &WindowLabel) -> (r: Option<WindowLabel>)
        ensures
            option_view(r) == parent_of(self@.links, child@),
    {
        let mut found: Option<WindowLabel> = None;
        let mut i: usize = 0;
        while i < self.links.len()
            invariant
                i <= self.links@.len(),
                option_view(found) == parent_of(self@.links.subrange(0, i as int), child@),
            decreases self.links@.len() - i,
        {
            assert(self@.links.subrange(0, i + 1).drop_last() =~= self@.links.subrange(
                0,
                i as int,
            ));
            if self.links[i].child.same(child) {
                found = Some(self.links[i].parent.clone());
            }
            i = i + 1;
        }
        assert(self@.links.subrange(0, self.links@.len() as int) =~= self@.links);
        found
    }

    /// Records a window that has just been built. A label that is already
    /// open is left as it is and `false` comes back. A parent that is open
    /// is linked to the new window; a closed one is ignored.
    pub fn register(&mut self, label: WindowLabel, parent: Option<WindowLabel>) -> (r: bool)
        requires
            old(self).wf(),
        ensures
            final(self).wf(),
            r == !old(self)@.windows.contains(label@),
            final(self)@.ready_handled == old(self)@.ready_handled,
            !r ==> final(self)@ == old(self)@,
            r ==> final(self)@.windows == old(self)@.windows.push(label@),
            r ==> final(self)@.links == match parent {
                Some(p) => if old(self)@.windows.contains(p@) {
                    old(self)@.links.push((p@, label@))
                } else {
                    old(self)@.links
                },
                None => old(self)@.links,
            },
    {
        if self.contains(&label) {
            return false;
        }
        let ghost ws = self@.windows;
        let ghost ls = self@.links;
        let linked = match &parent {
            Some(p) => self.contains(p),
            None => false,
        };
        let child = label.clone();
        self.windows.push(label);
        assert(self@.windows =~= ws.push(child@));
        if linked {
            match parent {
                Some(p) => {
                    let ghost pv = p@;
                    self.links.push(ChildLink { parent: p, child });
                    assert(self@.links =~= ls.push((pv, child@)));
                },
                None => {},
            }
        }
        proof {
            let nw = self@.windows;
            assert forall|x: LabelView| ws.contains(x) implies #[trigger] nw.contains(x) by {
                lemma_contains_push(ws, child@, x);
            }
            assert forall|i: int, j: int| 0 <= i < j < nw.len() implies nw[i] != nw[j] by {
                if j == nw.len() - 1 {
                    assert(ws.contains(nw[i]));
                }
            }
            let nl = self@.links;
            assert forall|i: int, j: int| 0 <= i < j < nl.len() implies nl[i].1 != nl[j].1 by {
                if j == ls.len() {
                    assert(ws.contains(ls[i].0));
                    assert(ws.contains(ls[i].1));
                }
            }
            assert(nw[nw.len() - 1] == child@);
            assert(nw.contains(child@));
            assert forall|i: int| 0 <= i < nl.len() implies nw.contains(#[trigger] nl[i].0)
                && nw.contains(nl[i].1) by {
                if i < ls.len() {
                    assert(ws.contains(ls[i].0));
                    assert(ws.contains(ls[i].1));
                }
            }
        }
        true
    }

    /// A window is gone: it leaves the registry, and so do the links that
    /// involve it. The parent of a destroyed child, if one is recorded, is
    /// the one window to focus.
    pub fn on_destroyed(&mut self, label: &WindowLabel) -> (r: Option<WindowLabel>)
        requires
            old(self).wf(),
        ensures
            final(self).wf(),
            option_view(r) == parent_of(old(self)@.links, label@),
            final(self)@.windows == windows_without(old(self)@.windows, label@),
            final(self)@.links == links_without(old(self)@.links, label@),
            final(self)@.ready_handled == old(self)@.ready_handled,
    {
        let focus = self.recorded_parent(label);
        let ghost ws = self@.windows;
        let ghost ls = self@.links;
        let mut kept: Vec<WindowLabel> = Vec::new();
        let mut i: usize = 0;
        while i < self.windows.len()
            invariant
                i <= self.windows@.len(),
                ws == self@.windows,
                labels_view(kept@) == windows_without(ws.subrange(0, i as int), label@),
            decreases self.windows@.len() - i,
        {
            let ghost before = kept@;
            assert(ws.subrange(0, i + 1).drop_last() =~= ws.subrange(0, i as int));
            if !self.windows[i].same(label) {
                kept.push(self.windows[i].clone());
                assert(labels_view(kept@) =~= labels_view(before).push(ws[i as int]));
            }
            i = i + 1;
        }
        assert(ws.subrange(0, ws.len() as int) =~= ws);
        let mut kept_links: Vec<ChildLink> = Vec::new();
        let mut j: usize = 0;
        while j < self.links.len()
            invariant
                j <= self.links@.len(),
                ls == self@.links,
                kept_links@.map_values(|k: ChildLink| (k.parent@, k.child@)) == links_without(
                    ls.subrange(0, j as int),
                    label@,
                ),
            decreases self.links@.len() - j,
        {
            let ghost before = kept_links@;
            assert(ls.subrange(0, j + 1).drop_last() =~= ls.subrange(0, j as int));
            if !self.links[j].parent.same(label) && !self.links[j].child.same(label) {
                let k = ChildLink {
                    parent: self.links[j].parent.clone(),
                    child: self.links[j].child.clone(),
                };
                kept_links.push(k);
                assert(kept_links@.map_values(|k: ChildLink| (k.parent@, k.child@))
                    =~= before.map_values(|k: ChildLink| (k.parent@, k.child@)).push(
                    ls[j as int],
                ));
            }
            j = j + 1;
        }
        assert(ls.subrange(0, ls.len() as int) =~= ls);
        self.windows = kept;
        self.links = kept_links;
        proof {
            lemma_windows_without(ws, label@);
            lemma_links_without(ls, label@);
            let nw = self@.windows;
            let nl = self@.links;
            assert forall|i: int| 0 <= i < nl.len() implies nw.contains(#[trigger] nl[i].0)
                && nw.contains(nl[i].1) by {
                assert(nl.contains(nl[i]));
                let k = choose|k: int| 0 <= k < ls.len() && ls[k] == nl[i];
                assert(ws.contains(ls[k].0) && ws.contains(ls[k].1));
            }
        }
        focus
    }

    /// A window asks to close: its children close with it, and the home
    /// window's geometry is saved when the rule allows it. The registry
    /// itself changes only once the window is destroyed.
    pub fn on_close_requested(&self, label: &WindowLabel) -> (r: CloseResponse)
        ensures
            labels_view(r.close_children@) == children_of(self@.links, label@),
            r.save_geometry == should_save_geometry(label@, self@.windows.len()),
    {
        let close_children = self.children_linked_to(label);
        let save_geometry = !label.is_secondary() && !(self.count() > 1)
            && label.is_first_primary();
        CloseResponse { close_children, save_geometry }
    }

    /// A window gained or lost focus. Gaining it brings its children along.
    pub fn on_focused(&self, label: &WindowLabel, focused: bool) -> (r: Vec<WindowLabel>)
        ensures
            focused ==> labels_view(r@) == children_of(self@.links, label@),
            !focused ==> r@.len() == 0,
    {
        if focused {
            self.children_linked_to(label)
        } else {
            Vec::new()
        }
    }
}

impl WindowManager {
    /// Whether the application-ready event has been handled.
    pub fn ready_handled(&self) -> (r: bool)
        ensures
            r == self@.ready_handled,
    {
        self.ready_handled
    }

    /// The application is ready. The first time, the first primary window
    /// is to be built on the start page and its saved geometry restored;
    /// any later time, nothing is to be done.
    pub fn on_ready(&mut self) -> (r: Option<WindowPlan>)
        requires
            old(self).wf(),
        ensures
            final(self).wf(),
            final(self)@.windows == old(self)@.windows,
            final(self)@.links == old(self)@.links,
            final(self)@.ready_handled,
            old(self)@.ready_handled ==> r is None,
            !old(self)@.ready_handled ==> (r matches Some(WindowPlan::Build(w)) && is_main_window(
                w,
                old(self)@.windows,
                START_URL@,
                None,
                None,
            )),
    {
        if self.ready_handled {
            return None;
        }
        self.ready_handled = true;
        Some(self.create_main_window(START_URL.to_owned(), None, None))
    }
}

impl WindowManager {
    /// The open window known to the windowing system by `text`.
    pub fn find_by_text(&self, text: &str) -> (r: Option<WindowLabel>)
        ensures
            r matches Some(l) ==> self@.windows.contains(l@) && label_text(l@) == text@,
            r is None ==> forall|i: int|
                0 <= i < self@.windows.len() ==> label_text(#[trigger] self@.windows[i]) != text@,
    {
        let mut i: usize = 0;
        while i < self.windows.len()
            invariant
                i <= self.windows@.len(),
                forall|j: int| 0 <= j < i ==> label_text(#[trigger] self@.windows[j]) != text@,
            decreases self.windows@.len() - i,
        {
            let t = self.windows[i].text();
            if same_text(t.as_str(), text) {
                assert(self@.windows[i as int] == self.windows@[i as int]@);
                return Some(self.windows[i].clone());
            }
            i = i + 1;
        }
        None
    }
}

} // verus!
