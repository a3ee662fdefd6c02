//! Tab bar state: tab order, the active tab and drag reordering.

use vstd::prelude::*;
use crate::state::app_state::DocumentId;

verus! {

/// A single tab in the tab bar
#[derive(Debug, Clone)]
pub struct Tab {
    /// Document ID this tab represents
    pub document_id: DocumentId,
    /// Display title for the tab
    pub title: String,
    /// Whether this tab is pinned
    pub pinned: bool,
}

impl Tab {
    /// Create a new tab
    pub fn new(document_id: DocumentId, title: String) -> (r: Self)
        ensures
            r == (Tab { document_id, title, pinned: false }),
    {
        Tab { document_id, title, pinned: false }
    }
}

/// Index of the first tab of a document at or after `i`, or -1.
pub open spec fn index_from(s: Seq<Tab>, id: DocumentId, i: int) -> int
    decreases s.len() - i,
{
    if i < 0 || i >= s.len() {
        -1
    } else if s[i].document_id == id {
        i
    } else {
        index_from(s, id, i + 1)
    }
}

/// Index of the first tab of a document, or -1.
pub open spec fn tab_index(s: Seq<Tab>, id: DocumentId) -> int {
    index_from(s, id, 0)
}

/// The tabs of `s` that show document `id`, in order.
pub open spec fn tabs_of(s: Seq<Tab>, id: DocumentId) -> Seq<Tab>
    decreases s.len(),
{
    if s.len() == 0 {
        s
    } else if s.last().document_id == id {
        tabs_of(s.drop_last(), id).push(s.last())
    } else {
        tabs_of(s.drop_last(), id)
    }
}

/// Where the active tab goes when the tab at `from` moves to `to`.
pub open spec fn moved_active(active: int, from: int, to: int) -> int {
    if active == from {
        to
    } else if from < active && to >= active {
        active - 1
    } else if from > active && to <= active {
        active + 1
    } else {
        active
    }
}

/// State of the tab bar
#[derive(Debug, Clone)]
pub struct TabState {
    /// Ordered list of tabs
    pub tabs: Vec<Tab>,
    /// Index of the currently active tab
    pub active_index: Option<usize>,
    /// Tab being dragged (if any)
    pub dragging_index: Option<usize>,
    /// Drop target index during drag
    pub drop_target_index: Option<usize>,
    /// Whether tab context menu is open
    pub context_menu_open: bool,
    /// Index of tab with context menu open
    pub context_menu_index: Option<usize>,
}

impl TabState {
    /// The active index, when set, names an existing tab.
    pub open spec fn active_ok(&self) -> bool {
        self.active_index matches Some(i) ==> i < self.tabs@.len()
    }

    /// Create a new empty tab state
    pub fn new() -> (r: Self)
        ensures
            r.tabs@.len() == 0,
            r.active_index is None,
            r.dragging_index is None,
            r.drop_target_index is None,
            !r.context_menu_open,
            r.context_menu_index is None,
    {
        TabState {
            tabs: Vec::new(),
            active_index: None,
            dragging_index: None,
            drop_target_index: None,
            context_menu_open: false,
            context_menu_index: None,
        }
    }

    /// Add a new tab just after the active one (at the end when none is
    /// active); it becomes active
    pub fn add_tab(&mut self, document_id: DocumentId, title: String)
        requires
            old(self).active_ok(),
        ensures
            ({
                let k = match old(self).active_index {
                    Some(i) => i + 1,
                    None => old(self).tabs@.len() as int,
                };
                &&& final(self).tabs@ == old(self).tabs@.insert(
                    k,
                    Tab { document_id, title, pinned: false },
                )
                &&& final(self).active_index == Some(k as usize)
            }),
            final(self).active_ok(),
    {
        let len = self.tabs.len();
        let tab = Tab::new(document_id, title);
        let insert_index = match self.active_index {
            Some(i) => i + 1,
            None => len,
        };
        self.tabs.insert(insert_index, tab);
        self.active_index = Some(insert_index);
    }

    /// Find tab index by document ID (the first tab of that document)
    pub fn find_tab_index(&self, document_id: DocumentId) -> (r: Option<usize>)
        ensures
            r matches Some(i) ==> i == tab_index(self.tabs@, document_id),
            r is None ==> tab_index(self.tabs@, document_id) == -1,
            r matches Some(i) ==> i < self.tabs@.len() && self.tabs@[i as int].document_id
                == document_id,
            self.tabs@.len() <= usize::MAX,
    {
        let n = self.tabs.len();
        let mut i: usize = 0;
        while i < n
            invariant
                n == self.tabs@.len(),
                i <= self.tabs@.len(),
                index_from(self.tabs@, document_id, i as int) == tab_index(self.tabs@, document_id),
            decreases self.tabs@.len() - i,
        {
            if self.tabs[i].document_id == document_id {
                return Some(i);
            }
            i = i + 1;
        }
        None
    }

    /// Remove the first tab of a document; the active tab stays the same
    /// tab, or, when it was the removed one, the tab now at its place (the
    /// last one when it was last)
    pub fn remove_tab(&mut self, document_id: DocumentId)
        requires
            old(self).active_ok(),
        ensures
            final(self).active_ok(),
            ({
                let k = tab_index(old(self).tabs@, document_id);
                let n = old(self).tabs@.len() as int;
                if k == -1 {
                    final(self).tabs@ == old(self).tabs@ && final(self).active_index
                        == old(self).active_index
                } else {
                    &&& final(self).tabs@ == old(self).tabs@.remove(k)
                    &&& final(self).active_index == (if n == 1 {
                        None
                    } else {
                        match old(self).active_index {
                            Some(a) => if a == k {
                                Some((if a < n - 1 { a as int } else { n - 2 }) as usize)
                            } else if a > k {
                                Some((a - 1) as usize)
                            } else {
                                Some(a)
                            },
                            None => None,
                        }
                    })
                }
            }),
    {
        if let Some(index) = self.find_tab_index(document_id) {
            self.tabs.remove(index);
            if self.tabs.is_empty() {
                self.active_index = None;
            } else if let Some(active) = self.active_index {
                if active == index {
                    let last = self.tabs.len() - 1;
                    self.active_index = Some(
                        if active < last {
                            active
                        } else {
                            last
                        },
                    );
                } else if active > index {
                    self.active_index = Some(active - 1);
                }
            }
        }
    }

    /// Set the active tab by document ID (no change for an unknown one)
    pub fn set_active(&mut self, document_id: DocumentId)
        ensures
            final(self).tabs == old(self).tabs,
            final(self).active_index == (if tab_index(old(self).tabs@, document_id) >= 0 {
                Some(tab_index(old(self).tabs@, document_id) as usize)
            } else {
                old(self).active_index
            }),
    {
        if let Some(index) = self.find_tab_index(document_id) {
            self.active_index = Some(index);
        }
    }

    /// Set the active tab by index (no change for an index past the end)
    pub fn set_active_index(&mut self, index: usize)
        ensures
            final(self).tabs == old(self).tabs,
            final(self).active_index == (if index < old(self).tabs@.len() {
                Some(index)
            } else {
                old(self).active_index
            }),
    {
        if index < self.tabs.len() {
            self.active_index = Some(index);
        }
    }

    /// Get the active tab's document ID
    pub fn active_tab(&self) -> (r: Option<DocumentId>)
        ensures
            r == (match self.active_index {
                Some(i) => if i < self.tabs@.len() {
                    Some(self.tabs@[i as int].document_id)
                } else {
                    None
                },
                None => None,
            }),
    {
        match self.active_index {
            Some(i) => {
                if i < self.tabs.len() {
                    Some(self.tabs[i].document_id)
                } else {
                    None
                }
            },
            None => None,
        }
    }

    /// Get the active tab reference
    pub fn active_tab_ref(&self) -> (r: Option<&Tab>)
        ensures
            r == (match self.active_index {
                Some(i) => if i < self.tabs@.len() {
                    Some(&self.tabs@[i as int])
                } else {
                    None
                },
                None => None,
            }),
    {
        match self.active_index {
            Some(i) => {
                if i < self.tabs.len() {
                    Some(&self.tabs[i])
                } else {
                    None
                }
            },
            None => None,
        }
    }

    /// Move to the next tab, wrapping after the last
    pub fn next_tab(&mut self)
        ensures
            final(self).tabs == old(self).tabs,
            final(self).active_index == (if old(self).tabs@.len() == 0 {
                old(self).active_index
            } else {
                match old(self).active_index {
                    Some(a) => Some(((a + 1) % (old(self).tabs@.len() as int)) as usize),
                    None => Some(0usize),
                }
            }),
    {
        let len = self.tabs.len();
        if len == 0 {
            return;
        }
        match self.active_index {
            Some(active) => {
                let k = active % len;
                proof {
                    crate::state::editor_state::lemma_wrap_next(active as int, len as int);
                }
                self.active_index = Some(
                    if k + 1 == len {
                        0
                    } else {
                        k + 1
                    },
                );
            },
            None => {
                self.active_index = Some(0);
            },
        }
    }

    /// Move to the previous tab, wrapping before the first
    pub fn prev_tab(&mut self)
        ensures
            final(self).tabs == old(self).tabs,
            final(self).active_index == (if old(self).tabs@.len() == 0 {
                old(self).active_index
            } else {
                match old(self).active_index {
                    Some(a) => Some((if a == 0 { old(self).tabs@.len() - 1 } else { a - 1 }) as usize),
                    None => Some((old(self).tabs@.len() - 1) as usize),
                }
            }),
    {
        let len = self.tabs.len();
        if len == 0 {
            return;
        }
        match self.active_index {
            Some(active) => {
                self.active_index = Some(
                    if active == 0 {
                        len - 1
                    } else {
                        active - 1
                    },
                );
            },
            None => {
                self.active_index = Some(len - 1);
            },
        }
    }

    /// Move tab from one index to another (for drag reordering); the
    /// active tab follows the tabs' new order
    pub fn move_tab(&mut self, from: usize, to: usize)
        requires
            old(self).active_ok(),
        ensures
            final(self).active_ok(),
            ({
                let n = old(self).tabs@.len() as int;
                if from >= n || to >= n || from == to {
                    final(self).tabs@ == old(self).tabs@ && final(self).active_index
                        == old(self).active_index
                } else {
                    let t = if to > from { to - 1 } else { to as int };
                    &&& final(self).tabs@ == old(self).tabs@.remove(from as int).insert(
                        t,
                        old(self).tabs@[from as int],
                    )
                    &&& final(self).active_index == (match old(self).active_index {
                        Some(a) => Some(moved_active(a as int, from as int, t) as usize),
                        None => None,
                    })
                }
            }),
            final(self).dragging_index == old(self).dragging_index,
            final(self).drop_target_index == old(self).drop_target_index,
    {
        let len = self.tabs.len();
        if from >= len || to >= len || from == to {
            return;
        }
        let tab = self.tabs.remove(from);
        let to_index = if to > from {
            to - 1
        } else {
            to
        };
        self.tabs.insert(to_index, tab);
        if let Some(active) = self.active_index {
            self.active_index = Some(
                if active == from {
                    to_index
                } else if from < active && to_index >= active {
                    active - 1
                } else if from > active && to_index <= active {
                    active + 1
                } else {
                    active
                },
            );
        }
    }

    /// Update the title of the first tab of a document
    pub fn update_title(&mut self, document_id: DocumentId, title: String)
        ensures
            final(self).active_index == old(self).active_index,
            tab_index(old(self).tabs@, document_id) == -1 ==> final(self).tabs@ == old(self).tabs@,
            tab_index(old(self).tabs@, document_id) >= 0 ==> final(self).tabs@ == old(self).tabs@.update(
                tab_index(old(self).tabs@, document_id),
                Tab { title, ..old(self).tabs@[tab_index(old(self).tabs@, document_id)] },
            ),
    {
        if let Some(i) = self.find_tab_index(document_id) {
            let old_tab = self.tabs.remove(i);
            let tab = Tab { title, ..old_tab };
            self.tabs.insert(i, tab);
            assert(self.tabs@ =~= old(self).tabs@.update(i as int, tab));
        }
    }

    /// Toggle pin status for the first tab of a document
    pub fn toggle_pin(&mut self, document_id: DocumentId)
        ensures
            final(self).active_index == old(self).active_index,
            tab_index(old(self).tabs@, document_id) == -1 ==> final(self).tabs@ == old(self).tabs@,
            tab_index(old(self).tabs@, document_id) >= 0 ==> final(self).tabs@ == old(self).tabs@.update(
                tab_index(old(self).tabs@, document_id),
                Tab {
                    pinned: !old(self).tabs@[tab_index(old(self).tabs@, document_id)].pinned,
                    ..old(self).tabs@[tab_index(old(self).tabs@, document_id)]
                },
            ),
    {
        if let Some(i) = self.find_tab_index(document_id) {
            let old_tab = self.tabs.remove(i);
            let pinned = !old_tab.pinned;
            let tab = Tab { pinned, ..old_tab };
            self.tabs.insert(i, tab);
            assert(self.tabs@ =~= old(self).tabs@.update(i as int, tab));
        }
    }

    /// Get tab count
    pub fn count(&self) -> (r: usize)
        ensures
            r == self.tabs@.len(),
    {
        self.tabs.len()
    }

    /// Check if there are any tabs
    pub fn is_empty(&self) -> (r: bool)
        ensures
            r == (self.tabs@.len() == 0),
    {
        self.tabs.is_empty()
    }

    /// Start dragging a tab (ignored for an index past the end)
    pub fn start_drag(&mut self, index: usize)
        ensures
            final(self).tabs == old(self).tabs,
            final(self).active_index == old(self).active_index,
            final(self).dragging_index == (if index < old(self).tabs@.len() {
                Some(index)
            } else {
                old(self).dragging_index
            }),
    {
        if index < self.tabs.len() {
            self.dragging_index = Some(index);
        }
    }

    /// Update drop target during drag
    pub fn update_drop_target(&mut self, index: Option<usize>)
        ensures
            final(self).tabs == old(self).tabs,
            final(self).active_index == old(self).active_index,
            final(self).dragging_index == old(self).dragging_index,
            final(self).drop_target_index == index,
    {
        self.drop_target_index = index;
    }

    /// End drag operation: the dragged tab moves to the drop target
    pub fn end_drag(&mut self)
        requires
            old(self).active_ok(),
        ensures
            final(self).active_ok(),
            final(self).dragging_index is None,
            final(self).drop_target_index is None,
            (old(self).dragging_index is None || old(self).drop_target_index is None)
                ==> final(self).tabs == old(self).tabs && final(self).active_index
                == old(self).active_index,
    {
        if let (Some(from), Some(to)) = (self.dragging_index, self.drop_target_index) {
            self.move_tab(from, to);
        }
        self.dragging_index = None;
        self.drop_target_index = None;
    }

    /// Cancel drag operation
    pub fn cancel_drag(&mut self)
        ensures
            final(self).tabs == old(self).tabs,
            final(self).active_index == old(self).active_index,
            final(self).dragging_index is None,
            final(self).drop_target_index is None,
    {
        self.dragging_index = None;
        self.drop_target_index = None;
    }

    /// Close all tabs except those of the given document; the first left
    /// becomes active
    pub fn close_others(&mut self, keep_document_id: DocumentId)
        ensures
            final(self).tabs@ == tabs_of(old(self).tabs@, keep_document_id),
            final(self).active_index == (if final(self).tabs@.len() == 0 {
                None
            } else {
                Some(0usize)
            }),
            final(self).active_ok(),
    {
        let ghost s = self.tabs@;
        let n = self.tabs.len();
        let mut kept: Vec<Tab> = Vec::new();
        let mut k: usize = 0;
        while self.tabs.len() > 0
            invariant
                k + self.tabs@.len() == s.len(),
                s.len() == n,
                s == old(self).tabs@,
                self.tabs@ == s.subrange(k as int, s.len() as int),
                kept@ == tabs_of(s.subrange(0, k as int), keep_document_id),
            decreases self.tabs@.len(),
        {
            let tab = self.tabs.remove(0);
            assert(s.subrange(0, k + 1).drop_last() =~= s.subrange(0, k as int));
            assert(s.subrange(k + 1, s.len() as int) =~= s.subrange(k as int, s.len() as int).subrange(
                1,
                s.len() - k,
            ));
            if tab.document_id == keep_document_id {
                kept.push(tab);
            }
            k = k + 1;
        }
        assert(s.subrange(0, s.len() as int) =~= s);
        self.tabs = kept;
        self.active_index = if self.tabs.is_empty() {
            None
        } else {
            Some(0)
        };
    }

    /// Close all tabs to the right of the first tab of a document
    pub fn close_to_right(&mut self, document_id: DocumentId)
        ensures
            ({
                let k = tab_index(old(self).tabs@, document_id);
                if k == -1 {
                    final(self).tabs@ == old(self).tabs@ && final(self).active_index
                        == old(self).active_index
                } else {
                    &&& final(self).tabs@ == old(self).tabs@.subrange(0, k + 1)
                    &&& final(self).active_index == (match old(self).active_index {
                        Some(a) => if a > k {
                            Some(k as usize)
                        } else {
                            Some(a)
                        },
                        None => None,
                    })
                }
            }),
    {
        if let Some(index) = self.find_tab_index(document_id) {
            self.tabs.truncate(index + 1);
            if let Some(active) = self.active_index {
                if active > index {
                    self.active_index = Some(index);
                }
            }
        }
    }

    /// Get all document IDs in order
    pub fn document_ids(&self) -> (r: Vec<DocumentId>)
        ensures
            r@ == self.tabs@.map_values(|t: Tab| t.document_id),
    {
        let mut r: Vec<DocumentId> = Vec::new();
        let mut i: usize = 0;
        while i < self.tabs.len()
            invariant
                i <= self.tabs@.len(),
                r@ == self.tabs@.subrange(0, i as int).map_values(|t: Tab| t.document_id),
            decreases self.tabs@.len() - i,
        {
            r.push(self.tabs[i].document_id);
            assert(r@ =~= self.tabs@.subrange(0, i + 1).map_values(|t: Tab| t.document_id));
            i = i + 1;
        }
        assert(self.tabs@.subrange(0, self.tabs@.len() as int) =~= self.tabs@);
        r
    }
}

impl Default for TabState {
    fn default() -> (r: Self)
        ensures
            r.tabs@.len() == 0,
            r.active_index is None,
    {
        TabState::new()
    }
}

} // verus!
