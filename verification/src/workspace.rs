//! Tabs and split panes: which panes exist, how they are grouped, and which one has focus.
//!
//! The workspace is generic over the pane value `P`; it decides where panes go and
//! which pane is active, and carries the panes without looking inside them.
use vstd::prelude::*;

verus! {

/// The most panes one tab may hold.
pub const MAX_PANES: usize = 4;

/// How the panes of a tab share its area.
#[derive(Debug, Clone, Copy, PartialEq, Eq, Structural)]
pub enum SplitDirection {
    Vertical,
    Horizontal,
}

/// A tab: a numbered group of panes, one of which is active.
pub struct TerminalTab<P> {
    number: usize,
    panes: Vec<P>,
    active_pane: usize,
    split: SplitDirection,
}

/// The abstract state of a tab.
#[verifier::ext_equal]
pub struct TabView<P> {
    pub number: nat,
    pub panes: Seq<P>,
    pub active_pane: nat,
    pub split: SplitDirection,
}

impl<P> TabView<P> {
    /// A tab holds between one and `MAX_PANES` panes, and its active pane is one of them.
    pub open spec fn wf(self) -> bool {
        &&& 1 <= self.panes.len() <= MAX_PANES
        &&& self.active_pane < self.panes.len()
    }

    /// A new tab with the given number and a single, active pane, split vertically.
    pub open spec fn fresh(number: nat, pane: P) -> TabView<P> {
        TabView { number, panes: seq![pane], active_pane: 0, split: SplitDirection::Vertical }
    }
}

impl<P> View for TerminalTab<P> {
    type V = TabView<P>;

    closed spec fn view(&self) -> TabView<P> {
        TabView {
            number: self.number as nat,
            panes: self.panes@,
            active_pane: self.active_pane as nat,
            split: self.split,
        }
    }
}

impl<P> TerminalTab<P> {
    /// Creates tab number `number` holding one pane.
    pub fn new(number: usize, pane: P) -> (t: Self)
        ensures
            t@ == TabView::fresh(number as nat, pane),
    {
        let mut panes = Vec::new();
        panes.push(pane);
        let t = TerminalTab { number, panes, active_pane: 0, split: SplitDirection::Vertical };
        assert(t@.panes =~= seq![pane]);
        t
    }

    /// The number shown in the tab's title.
    pub fn number(&self) -> (n: usize)
        ensures
            n == self@.number,
    {
        self.number
    }

    /// How many panes the tab holds.
    pub fn pane_count(&self) -> (n: usize)
        ensures
            n == self@.panes.len(),
    {
        self.panes.len()
    }

    /// The index of the active pane.
    pub fn active_pane_index(&self) -> (i: usize)
        ensures
            i == self@.active_pane,
    {
        self.active_pane
    }

    /// How the panes share the tab's area.
    pub fn split(&self) -> (d: SplitDirection)
        ensures
            d == self@.split,
    {
        self.split
    }

    /// The pane at `index`.
    pub fn pane(&self, index: usize) -> (p: &P)
        requires
            index < self@.panes.len(),
        ensures
            *p == self@.panes[index as int],
    {
        &self.panes[index]
    }

    /// Appends `pane`, makes it active and sets the split direction.
    fn push_pane(&mut self, direction: SplitDirection, pane: P)
        ensures
            final(self)@ == (TabView {
                number: old(self)@.number,
                panes: old(self)@.panes.push(pane),
                active_pane: old(self)@.panes.len(),
                split: direction,
            }),
    {
        self.split = direction;
        self.panes.push(pane);
        self.active_pane = self.panes.len() - 1;
    }

    /// Removes the active pane; the pane at the same index, or the new last pane, becomes active.
    fn remove_active_pane(&mut self) -> (removed: P)
        requires
            old(self)@.wf(),
            old(self)@.panes.len() > 1,
        ensures
            removed == old(self)@.panes[old(self)@.active_pane as int],
            final(self)@ == (TabView {
                number: old(self)@.number,
                panes: old(self)@.panes.remove(old(self)@.active_pane as int),
                active_pane: if old(self)@.active_pane <= old(self)@.panes.len() - 2 {
                    old(self)@.active_pane
                } else {
                    (old(self)@.panes.len() - 2) as nat
                },
                split: old(self)@.split,
            }),
    {
        let removed = self.panes.remove(self.active_pane);
        let last = self.panes.len() - 1;
        if self.active_pane > last {
            self.active_pane = last;
        }
        removed
    }

    /// Makes pane `index` the active pane.
    fn set_active_pane(&mut self, index: usize)
        ensures
            final(self)@ == (TabView { active_pane: index as nat, ..old(self)@ }),
    {
        self.active_pane = index;
    }

    /// The pane at `index`, for changing it in place.
    fn pane_mut(&mut self, index: usize) -> (p: &mut P)
        requires
            index < old(self)@.panes.len(),
        ensures
            *p == old(self)@.panes[index as int],
            final(self)@ == (TabView { panes: old(self)@.panes.update(index as int, *final(p)), ..old(self)@ }),
    {
        &mut self.panes[index]
    }
}


/// The abstract state of a workspace: its tabs and which one is active.
#[verifier::ext_equal]
pub struct WorkspaceView<P> {
    pub tabs: Seq<TabView<P>>,
    pub active_tab: nat,
}

impl<P> WorkspaceView<P> {
    /// There is at least one tab, the active tab is one of them, and every tab is well formed.
    pub open spec fn wf(self) -> bool {
        &&& self.tabs.len() >= 1
        &&& self.active_tab < self.tabs.len()
        &&& forall|i: int| 0 <= i < self.tabs.len() ==> (#[trigger] self.tabs[i]).wf()
    }

    /// The active tab.
    pub open spec fn active(self) -> TabView<P> {
        self.tabs[self.active_tab as int]
    }

    /// The active pane of the active tab.
    pub open spec fn focused(self) -> P {
        self.active().panes[self.active().active_pane as int]
    }

    /// The workspace with the active tab replaced by `tab`.
    pub open spec fn with_active(self, tab: TabView<P>) -> Self {
        WorkspaceView { tabs: self.tabs.update(self.active_tab as int, tab), active_tab: self.active_tab }
    }

    /// Opening a tab: a fresh tab numbered one past the tab count is appended and becomes active.
    pub open spec fn with_new_tab(self, pane: P) -> Self {
        WorkspaceView {
            tabs: self.tabs.push(TabView::fresh(self.tabs.len() + 1, pane)),
            active_tab: self.tabs.len(),
        }
    }

    /// Closing the active tab: the last remaining tab is never closed; otherwise the
    /// active tab is removed and the tab at the same index (or the new last tab) becomes active.
    pub open spec fn with_tab_closed(self) -> Self {
        if self.tabs.len() <= 1 {
            self
        } else {
            WorkspaceView {
                tabs: self.tabs.remove(self.active_tab as int),
                active_tab: if self.active_tab <= self.tabs.len() - 2 {
                    self.active_tab
                } else {
                    (self.tabs.len() - 2) as nat
                },
            }
        }
    }

    /// Whether the active tab has room for one more pane.
    pub open spec fn can_split(self) -> bool {
        self.active().panes.len() < MAX_PANES
    }

    /// Splitting the active tab: unless it is full, `pane` is appended to it and becomes
    /// its active pane, and the tab takes the given direction.
    pub open spec fn with_split(self, direction: SplitDirection, pane: P) -> Self {
        if !self.can_split() {
            self
        } else {
            self.with_active(TabView {
                number: self.active().number,
                panes: self.active().panes.push(pane),
                active_pane: self.active().panes.len(),
                split: direction,
            })
        }
    }

    /// Closing the active pane: the last pane of a tab is never closed; otherwise it is
    /// removed and the pane at the same index (or the new last pane) becomes active.
    pub open spec fn with_pane_closed(self) -> Self {
        let tab = self.active();
        if tab.panes.len() <= 1 {
            self
        } else {
            self.with_active(TabView {
                number: tab.number,
                panes: tab.panes.remove(tab.active_pane as int),
                active_pane: if tab.active_pane <= tab.panes.len() - 2 {
                    tab.active_pane
                } else {
                    (tab.panes.len() - 2) as nat
                },
                split: tab.split,
            })
        }
    }

    /// Making tab `index` the active tab.
    pub open spec fn with_tab_selected(self, index: nat) -> Self {
        WorkspaceView { tabs: self.tabs, active_tab: index }
    }

    /// Making pane `index` of the active tab its active pane.
    pub open spec fn with_pane_selected(self, index: nat) -> Self {
        self.with_active(TabView { active_pane: index, ..self.active() })
    }

    /// Replacing the value of pane `index` of tab `tab`.
    pub open spec fn with_pane(self, tab: int, index: int, pane: P) -> Self {
        WorkspaceView {
            tabs: self.tabs.update(tab, TabView { panes: self.tabs[tab].panes.update(index, pane), ..self.tabs[tab] }),
            active_tab: self.active_tab,
        }
    }

    /// Replacing the value of the focused pane.
    pub open spec fn with_focused(self, pane: P) -> Self {
        self.with_pane(self.active_tab as int, self.active().active_pane as int, pane)
    }
}

/// Every operation keeps a workspace well formed: there is always at least one tab,
/// the active tab exists, and every tab holds between one and `MAX_PANES` panes with
/// an active pane among them.
pub proof fn lemma_operations_keep_wf<P>(v: WorkspaceView<P>, direction: SplitDirection, pane: P, index: nat)
    requires
        v.wf(),
    ensures
        v.with_new_tab(pane).wf(),
        v.with_tab_closed().wf(),
        v.with_split(direction, pane).wf(),
        v.with_pane_closed().wf(),
        index < v.tabs.len() ==> v.with_tab_selected(index).wf(),
        index < v.active().panes.len() ==> v.with_pane_selected(index).wf(),
        v.with_focused(pane).wf(),
{
    let n = v.with_new_tab(pane);
    assert forall|i: int| 0 <= i < n.tabs.len() implies (#[trigger] n.tabs[i]).wf() by {
        if i < v.tabs.len() {
            assert(n.tabs[i] == v.tabs[i]);
        }
    }
    if v.tabs.len() > 1 {
        let c = v.with_tab_closed();
        assert forall|i: int| 0 <= i < c.tabs.len() implies (#[trigger] c.tabs[i]).wf() by {
            if i < v.active_tab {
                assert(c.tabs[i] == v.tabs[i]);
            } else {
                assert(c.tabs[i] == v.tabs[i + 1]);
            }
        }
    }
    let a = v.active_tab as int;
    let s = v.with_split(direction, pane);
    assert forall|i: int| 0 <= i < s.tabs.len() implies (#[trigger] s.tabs[i]).wf() by {
        if i != a {
            assert(s.tabs[i] == v.tabs[i]);
        }
    }
    let p = v.with_pane_closed();
    assert forall|i: int| 0 <= i < p.tabs.len() implies (#[trigger] p.tabs[i]).wf() by {
        if i != a {
            assert(p.tabs[i] == v.tabs[i]);
        }
    }
    if index < v.active().panes.len() {
        let q = v.with_pane_selected(index);
        assert forall|i: int| 0 <= i < q.tabs.len() implies (#[trigger] q.tabs[i]).wf() by {
            if i != a {
                assert(q.tabs[i] == v.tabs[i]);
            }
        }
    }
    let f = v.with_focused(pane);
    assert forall|i: int| 0 <= i < f.tabs.len() implies (#[trigger] f.tabs[i]).wf() by {
        if i != a {
            assert(f.tabs[i] == v.tabs[i]);
        }
    }
}

/// Closing a tab right after opening it gives back the tabs there were before, and
/// the tab that is closed is the one just opened; the last of the earlier tabs is
/// then active.
pub proof fn lemma_close_tab_undoes_new_tab<P>(v: WorkspaceView<P>, pane: P)
    requires
        v.wf(),
    ensures
        v.with_new_tab(pane).active() == TabView::fresh(v.tabs.len() + 1, pane),
        v.with_new_tab(pane).with_tab_closed().tabs == v.tabs,
        v.with_new_tab(pane).with_tab_closed().active_tab == v.tabs.len() - 1,
{
    let n = v.with_new_tab(pane);
    assert(n.tabs.remove(n.active_tab as int) =~= v.tabs);
}

/// Closing the active pane right after a split gives back the panes the tab had
/// before, and the pane that is closed is the one the split added; no other tab changes.
pub proof fn lemma_close_pane_undoes_split<P>(v: WorkspaceView<P>, direction: SplitDirection, pane: P)
    requires
        v.wf(),
        v.can_split(),
    ensures
        v.with_split(direction, pane).focused() == pane,
        v.with_split(direction, pane).with_pane_closed().tabs.len() == v.tabs.len(),
        v.with_split(direction, pane).with_pane_closed().active_tab == v.active_tab,
        v.with_split(direction, pane).with_pane_closed().active().panes == v.active().panes,
        v.with_split(direction, pane).with_pane_closed().active().number == v.active().number,
        forall|i: int|
            0 <= i < v.tabs.len() && i != v.active_tab ==> #[trigger] v.with_split(direction, pane).with_pane_closed().tabs[i]
                == v.tabs[i],
{
    let s = v.with_split(direction, pane);
    assert(s.active().panes.remove(s.active().active_pane as int) =~= v.active().panes);
}

/// Closing a tab other than the only one removes exactly the active tab, keeping the
/// others in order, and focus moves to the neighbour on the right, which now has the
/// closed tab's index; only when the closed tab was the last one does focus move to
/// the new last tab.
pub proof fn lemma_close_tab_focuses_right_neighbour<P>(v: WorkspaceView<P>)
    requires
        v.wf(),
        v.tabs.len() > 1,
    ensures
        v.with_tab_closed().tabs.len() == v.tabs.len() - 1,
        forall|i: int| 0 <= i < v.active_tab ==> #[trigger] v.with_tab_closed().tabs[i] == v.tabs[i],
        forall|i: int|
            v.active_tab <= i < v.tabs.len() - 1 ==> #[trigger] v.with_tab_closed().tabs[i] == v.tabs[i + 1],
        v.active_tab < v.tabs.len() - 1 ==> {
            &&& v.with_tab_closed().active_tab == v.active_tab
            &&& v.with_tab_closed().active() == v.tabs[(v.active_tab + 1) as int]
        },
        v.active_tab == v.tabs.len() - 1 ==> {
            &&& v.with_tab_closed().active_tab == v.active_tab - 1
            &&& v.with_tab_closed().active() == v.tabs[v.active_tab - 1]
        },
{
}

/// Closing a pane other than the only one of its tab removes exactly the active pane,
/// keeping the others in order; the pane to its right (which now has its index) becomes
/// active, or, when the closed pane was the last one, the new last pane. No other tab
/// changes, and the active tab stays active.
pub proof fn lemma_close_pane_focuses_right_neighbour<P>(v: WorkspaceView<P>)
    requires
        v.wf(),
        v.active().panes.len() > 1,
    ensures
        v.with_pane_closed().active_tab == v.active_tab,
        v.with_pane_closed().tabs.len() == v.tabs.len(),
        forall|i: int| 0 <= i < v.tabs.len() && i != v.active_tab ==> #[trigger] v.with_pane_closed().tabs[i] == v.tabs[i],
        v.with_pane_closed().active().number == v.active().number,
        v.with_pane_closed().active().split == v.active().split,
        v.with_pane_closed().active().panes.len() == v.active().panes.len() - 1,
        forall|i: int|
            0 <= i < v.active().active_pane ==> #[trigger] v.with_pane_closed().active().panes[i]
                == v.active().panes[i],
        forall|i: int|
            v.active().active_pane <= i < v.active().panes.len() - 1 ==> #[trigger] v.with_pane_closed().active().panes[i]
                == v.active().panes[i + 1],
        v.active().active_pane < v.active().panes.len() - 1 ==> {
            &&& v.with_pane_closed().active().active_pane == v.active().active_pane
            &&& v.with_pane_closed().focused() == v.active().panes[(v.active().active_pane + 1) as int]
        },
        v.active().active_pane == v.active().panes.len() - 1 ==> {
            &&& v.with_pane_closed().active().active_pane == v.active().active_pane - 1
            &&& v.with_pane_closed().focused() == v.active().panes[v.active().active_pane - 1]
        },
{
}

/// The tabs of one window and the index of the active tab.
pub struct Workspace<P> {
    tabs: Vec<TerminalTab<P>>,
    active_tab: usize,
}

impl<P> View for Workspace<P> {
    type V = WorkspaceView<P>;

    closed spec fn view(&self) -> WorkspaceView<P> {
        WorkspaceView {
            tabs: self.tabs@.map_values(|t: TerminalTab<P>| t@),
            active_tab: self.active_tab as nat,
        }
    }
}

impl<P> Workspace<P> {
    /// Whether the workspace is well formed (see `WorkspaceView::wf`).
    pub open spec fn wf(&self) -> bool {
        self@.wf()
    }

    /// A workspace holding tab number 1 with `pane` as its only pane.
    pub fn new(pane: P) -> (w: Self)
        ensures
            w.wf(),
            w@.tabs == seq![TabView::fresh(1, pane)],
            w@.active_tab == 0,
    {
        let mut tabs = Vec::new();
        tabs.push(TerminalTab::new(1, pane));
        let w = Workspace { tabs, active_tab: 0 };
        assert(w@.tabs =~= seq![TabView::fresh(1, pane)]);
        w
    }

    /// How many tabs are open.
    pub fn tab_count(&self) -> (n: usize)
        ensures
            n == self@.tabs.len(),
    {
        self.tabs.len()
    }

    /// The index of the active tab.
    pub fn active_tab_index(&self) -> (i: usize)
        ensures
            i == self@.active_tab,
    {
        self.active_tab
    }

    /// The tab at `index`.
    pub fn tab(&self, index: usize) -> (t: &TerminalTab<P>)
        requires
            index < self@.tabs.len(),
        ensures
            t@ == self@.tabs[index as int],
    {
        &self.tabs[index]
    }

    /// The active tab.
    pub fn active_tab(&self) -> (t: &TerminalTab<P>)
        requires
            self.wf(),
        ensures
            t@ == self@.active(),
    {
        &self.tabs[self.active_tab]
    }

    /// The active pane of the active tab.
    pub fn active_pane(&self) -> (p: &P)
        requires
            self.wf(),
        ensures
            *p == self@.focused(),
    {
        let tab = &self.tabs[self.active_tab];
        assert(self@.tabs[self.active_tab as int] == tab@);
        tab.pane(tab.active_pane)
    }

    /// Opens a new tab holding `pane` and makes it active. The tab is numbered one
    /// past the number of tabs that were open.
    pub fn new_tab(&mut self, pane: P)
        requires
            old(self).wf(),
            old(self)@.tabs.len() < usize::MAX,
        ensures
            final(self).wf(),
            final(self)@ == old(self)@.with_new_tab(pane),
    {
        let number = self.tabs.len() + 1;
        self.tabs.push(TerminalTab::new(number, pane));
        self.active_tab = self.tabs.len() - 1;
        assert(self@.tabs =~= old(self)@.tabs.push(TabView::fresh(old(self)@.tabs.len() + 1, pane)));
    }

    /// Closes the active tab and hands it back. The last remaining tab is not closed:
    /// then nothing changes and `None` comes back, and the caller restarts its pane.
    pub fn close_tab(&mut self) -> (closed: Option<TerminalTab<P>>)
        requires
            old(self).wf(),
        ensures
            final(self).wf(),
            final(self)@ == old(self)@.with_tab_closed(),
            match closed {
                None => old(self)@.tabs.len() == 1,
                Some(t) => old(self)@.tabs.len() > 1 && t@ == old(self)@.active(),
            },
    {
        if self.tabs.len() == 1 {
            return None;
        }
        let ghost before = self@;
        let tab = self.tabs.remove(self.active_tab);
        let last = self.tabs.len() - 1;
        if self.active_tab > last {
            self.active_tab = last;
        }
        assert(self@ =~= before.with_tab_closed());
        proof {
            lemma_operations_keep_wf(before, SplitDirection::Vertical, before.focused(), 0);
        }
        Some(tab)
    }

    /// Makes tab `index` the active tab.
    pub fn select_tab(&mut self, index: usize)
        requires
            old(self).wf(),
            index < old(self)@.tabs.len(),
        ensures
            final(self).wf(),
            final(self)@ == old(self)@.with_tab_selected(index as nat),
    {
        self.active_tab = index;
    }

    /// Whether the active tab has room for another pane.
    pub fn can_split(&self) -> (b: bool)
        requires
            self.wf(),
        ensures
            b == self@.can_split(),
    {
        self.tabs[self.active_tab].pane_count() < MAX_PANES
    }

    /// Splits the active tab: `pane` joins it as its active pane and the tab takes
    /// `direction`. A tab that already holds `MAX_PANES` panes refuses, and `pane`
    /// comes back unused.
    pub fn split_active(&mut self, direction: SplitDirection, pane: P) -> (r: Result<(), P>)
        requires
            old(self).wf(),
        ensures
            final(self).wf(),
            final(self)@ == old(self)@.with_split(direction, pane),
            match r {
                Ok(()) => old(self)@.can_split(),
                Err(p) => !old(self)@.can_split() && p == pane,
            },
    {
        if !self.can_split() {
            return Err(pane);
        }
        let ghost before = self@;
        let t = self.active_tab;
        self.tabs[t].push_pane(direction, pane);
        assert(self@ =~= before.with_split(direction, pane));
        proof {
            lemma_operations_keep_wf(before, direction, pane, 0);
        }
        Ok(())
    }

    /// Closes the active pane of the active tab and hands it back. The last pane of a
    /// tab is not closed: then nothing changes and `None` comes back, and the caller
    /// restarts that pane.
    pub fn close_active_pane(&mut self) -> (closed: Option<P>)
        requires
            old(self).wf(),
        ensures
            final(self).wf(),
            final(self)@ == old(self)@.with_pane_closed(),
            match closed {
                None => old(self)@.active().panes.len() == 1,
                Some(p) => old(self)@.active().panes.len() > 1 && p == old(self)@.focused(),
            },
    {
        let ghost before = self@;
        let t = self.active_tab;
        assert(before.tabs[t as int] == self.tabs@[t as int]@);
        if self.tabs[t].pane_count() == 1 {
            return None;
        }
        let removed = self.tabs[t].remove_active_pane();
        assert(self@ =~= before.with_pane_closed());
        proof {
            lemma_operations_keep_wf(before, SplitDirection::Vertical, removed, 0);
        }
        Some(removed)
    }

    /// Makes pane `index` of the active tab its active pane.
    pub fn select_pane(&mut self, index: usize)
        requires
            old(self).wf(),
            index < old(self)@.active().panes.len(),
        ensures
            final(self).wf(),
            final(self)@ == old(self)@.with_pane_selected(index as nat),
    {
        let ghost before = self@;
        let t = self.active_tab;
        self.tabs[t].set_active_pane(index);
        assert(self@ =~= before.with_pane_selected(index as nat));
        proof {
            lemma_operations_keep_wf(before, SplitDirection::Vertical, before.focused(), index as nat);
        }
    }

    /// The active pane of the active tab, for changing it in place.
    pub fn active_pane_mut(&mut self) -> (p: &mut P)
        requires
            old(self).wf(),
        ensures
            *p == old(self)@.focused(),
            final(self)@ == old(self)@.with_focused(*final(p)),
            final(self).wf(),
    {
        let t = self.active_tab;
        assert(old(self)@.tabs[t as int] == self.tabs@[t as int]@);
        let i = self.tabs[t].active_pane_index();
        self.pane_mut(t, i)
    }

    /// Pane `index` of tab `tab`, for changing it in place.
    pub fn pane_mut(&mut self, tab: usize, index: usize) -> (p: &mut P)
        requires
            old(self).wf(),
            tab < old(self)@.tabs.len(),
            index < old(self)@.tabs[tab as int].panes.len(),
        ensures
            *p == old(self)@.tabs[tab as int].panes[index as int],
            final(self)@ == old(self)@.with_pane(tab as int, index as int, *final(p)),
            final(self).wf(),
    {
        assert(old(self)@.tabs[tab as int] == self.tabs@[tab as int]@);
        self.tabs[tab].pane_mut(index)
    }
}

} // verus!
