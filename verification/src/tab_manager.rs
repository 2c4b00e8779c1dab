//! The tabs of a window, and which of them is selected.
use crate::padding;
use crate::term::SizeInfo;
use crate::text;
use std::sync::Arc;
use vstd::prelude::*;

verus! {

/// The shell that a tab runs.
pub const DEFAULT_SHELL: &'static str = "/bin/zsh";

/// The width of a title in the tab bar, without the mark of the selected tab.
pub const TAB_TITLE_WIDTH: usize = 8;

/// The terminal of a tab, and the child process behind it.
pub struct Tab<P, T> {
    pub pty: Arc<P>,
    pub terminal: Arc<T>,
}

impl<P, T> Tab<P, T> {
    /// A tab that shares a process and a terminal with nobody.
    pub fn new(pty: P, terminal: T) -> (r: Tab<P, T>)
        ensures
            *r.pty == pty,
            *r.terminal == terminal,
    {
        Tab { pty: Arc::new(pty), terminal: Arc::new(terminal) }
    }

    /// Another handle to the same process and terminal.
    pub fn share(&self) -> (r: Tab<P, T>)
        ensures
            r == *self,
    {
        Tab { pty: self.pty.clone(), terminal: self.terminal.clone() }
    }
}

/// What a new tab is started with, besides the settings and the event proxy of its window.
pub struct TabRequest {
    pub size: SizeInfo,
    pub working_directory: Option<String>,
}

/// What has to be told the new size of the window.
pub enum Resized<P, T> {
    Terminal(Arc<T>),
    Pty(Arc<P>),
}

/// The tabs of a window.
pub struct TabManager<E, C, P, T> {
    /// The directory that a terminal last reported.
    pub current_working_directory_update: Option<String>,
    pub to_exit: bool,
    pub selected_tab: Option<usize>,
    pub tabs: Vec<Tab<P, T>>,
    pub size: Option<SizeInfo>,
    pub event_proxy: E,
    pub config: C,
    pub tab_titles: Vec<String>,
}

impl<E, C, P, T> TabManager<E, C, P, T> {
    /// The selected tab is one of the tabs, and nothing is selected only where there is none.
    pub open spec fn wf(self) -> bool {
        match self.selected_tab {
            Some(i) => i < self.tabs@.len(),
            None => self.tabs@.len() == 0,
        }
    }

    /// The index that counts as selected: the first where none is.
    pub open spec fn selected_or_first(self) -> int {
        match self.selected_tab {
            Some(i) => i as int,
            None => 0,
        }
    }

    /// Everything but the tabs and the selection is the same.
    pub open spec fn same_settings(self, other: Self) -> bool {
        &&& self.current_working_directory_update == other.current_working_directory_update
        &&& self.to_exit == other.to_exit
        &&& self.size == other.size
        &&& self.event_proxy == other.event_proxy
        &&& self.config == other.config
        &&& self.tab_titles == other.tab_titles
    }

    /// No tab, nothing selected, no size yet.
    pub fn new(event_proxy: E, config: C) -> (r: Self)
        ensures
            r.current_working_directory_update is None,
            !r.to_exit,
            r.selected_tab is None,
            r.tabs@.len() == 0,
            r.size is None,
            r.event_proxy == event_proxy,
            r.config == config,
            r.tab_titles@.len() == 0,
            r.wf(),
    {
        TabManager {
            current_working_directory_update: None,
            to_exit: false,
            selected_tab: None,
            tabs: Vec::new(),
            size: None,
            event_proxy,
            config,
            tab_titles: Vec::new(),
        }
    }

    /// Takes over a new size, and lists what has to be told: tab by tab, the terminal before the
    /// process.
    pub fn resize(&mut self, sz: SizeInfo) -> (r: Vec<Resized<P, T>>)
        ensures
            *final(self) == (TabManager { size: Some(sz), ..*old(self) }),
            r@.len() == 2 * old(self).tabs@.len(),
            forall|i: int|
                0 <= i < old(self).tabs@.len() ==> {
                    &&& #[trigger] r@[2 * i] == Resized::<P, T>::Terminal(
                        old(self).tabs@[i].terminal,
                    )
                    &&& r@[2 * i + 1] == Resized::<P, T>::Pty(old(self).tabs@[i].pty)
                },
    {
        self.set_size(sz);
        let mut r: Vec<Resized<P, T>> = Vec::new();
        let mut i: usize = 0;
        while i < self.tabs.len()
            invariant
                i <= self.tabs@.len(),
                *self == (TabManager { size: Some(sz), ..*old(self) }),
                r@.len() == 2 * i,
                forall|j: int|
                    0 <= j < i ==> {
                        &&& #[trigger] r@[2 * j] == Resized::<P, T>::Terminal(
                            self.tabs@[j].terminal,
                        )
                        &&& r@[2 * j + 1] == Resized::<P, T>::Pty(self.tabs@[j].pty)
                    },
            decreases self.tabs@.len() - i,
        {
            let tab = self.tabs[i].share();
            r.push(Resized::Terminal(tab.terminal));
            r.push(Resized::Pty(tab.pty));
            i += 1;
        }
        r
    }

    /// Takes over a new size.
    pub fn set_size(&mut self, sz: SizeInfo)
        ensures
            *final(self) == (TabManager { size: Some(sz), ..*old(self) }),
    {
        self.size = Some(sz);
    }

    /// The number of tabs.
    pub fn num_tabs(&self) -> (r: usize)
        ensures
            r == self.tabs@.len(),
    {
        self.tabs.len()
    }

    /// The number of tabs.
    pub fn tabs_len(&self) -> (r: usize)
        ensures
            r == self.tabs@.len(),
    {
        self.tabs.len()
    }

    /// What the next tab is started with.
    pub open spec fn is_request(self, request: TabRequest) -> bool {
        &&& self.size == Some(request.size)
        &&& request.working_directory == self.current_working_directory_update
    }

    /// A tab can be added: there is a size, the selection can be counted up, and it is one of the
    /// tabs where there is more than one.
    pub open spec fn can_add(self) -> bool {
        &&& self.size is Some
        &&& self.can_insert()
    }

    pub open spec fn can_insert(self) -> bool {
        &&& self.selected_or_first() < usize::MAX
        &&& self.tabs@.len() > 1 ==> self.selected_or_first() < self.tabs@.len()
    }

    /// Where a new tab is put: behind the selected one.
    pub open spec fn insert_position(self) -> int {
        if self.tabs@.len() > 1 {
            self.selected_or_first() + 1
        } else {
            self.tabs@.len() as int
        }
    }

    /// The tabs after a new one has been added.
    pub open spec fn tabs_with(self, tab: Tab<P, T>) -> Seq<Tab<P, T>> {
        self.tabs@.insert(self.insert_position(), tab)
    }

    /// The selection after a tab has been added: a tab alone is selected.
    pub open spec fn selection_with_tab(self) -> Option<usize> {
        if self.tabs@.len() == 0 {
            Some(0)
        } else {
            self.selected_tab
        }
    }

    /// The index that is handed out for a new tab.
    pub open spec fn new_index(self) -> int {
        match self.selected_tab {
            Some(i) => i + 1,
            None => 0,
        }
    }

    /// `after` is this window with one more tab.
    pub open spec fn added(self, tab: Tab<P, T>, after: Self) -> bool {
        &&& after.tabs@ == self.tabs_with(tab)
        &&& after.selected_tab == self.selection_with_tab()
        &&& after.same_settings(self)
    }

    /// Puts a started tab behind the selected one and returns the index behind the selected one.
    pub fn insert_tab(&mut self, tab: Tab<P, T>) -> (r: usize)
        requires
            old(self).can_insert(),
        ensures
            r == old(self).new_index(),
            old(self).added(tab, *final(self)),
    {
        let tab_idx: usize = match self.selected_tab {
            Some(idx) => idx + 1,
            None => 0,
        };
        let sel_tab_idx: usize = match self.selected_tab {
            Some(idx) => idx,
            None => 0,
        };
        let tabs_len: usize = self.tabs.len();
        if tabs_len > 1 {
            self.tabs.insert(sel_tab_idx + 1, tab);
        } else {
            self.tabs.push(tab);
            assert(self.tabs@ =~= old(self).tabs_with(tab));
        }
        if self.num_tabs() == 1 {
            self.set_selected_tab(0);
        }
        tab_idx
    }

    /// Starts a tab with the size, the directory, the settings and the event proxy of the window,
    /// puts it behind the selected one and returns the index behind the selected one.
    pub fn new_tab<F: FnOnce(TabRequest, &C, &E) -> Tab<P, T>>(&mut self, spawn: F) -> (r: usize)
        requires
            old(self).can_add(),
            forall|request: TabRequest|
                old(self).is_request(request) ==> call_requires(
                    spawn,
                    (request, &old(self).config, &old(self).event_proxy),
                ),
        ensures
            r == old(self).new_index(),
            exists|request: TabRequest, tab: Tab<P, T>|
                {
                    &&& #[trigger] old(self).is_request(request)
                    &&& call_ensures(
                        spawn,
                        (request, &old(self).config, &old(self).event_proxy),
                        tab,
                    )
                    &&& #[trigger] old(self).added(tab, *final(self))
                },
    {
        let working_directory: Option<String> = match &self.current_working_directory_update {
            Some(directory) => Some(directory.clone()),
            None => None,
        };
        let request = TabRequest { size: self.size.unwrap(), working_directory };
        assert(self.is_request(request));
        let tab = spawn(request, &self.config, &self.event_proxy);
        let ghost g = tab;
        let r = self.insert_tab(tab);
        assert(old(self).added(g, *self));
        r
    }

    /// Selects an index, whether or not there is such a tab.
    pub fn set_selected_tab(&mut self, idx: usize)
        ensures
            *final(self) == (TabManager { selected_tab: Some(idx), ..*old(self) }),
    {
        self.selected_tab = Some(idx);
    }

    /// The tabs that are left without the selected one.
    pub open spec fn remaining_tabs(self) -> Seq<Tab<P, T>> {
        match self.selected_tab {
            Some(i) => self.tabs@.remove(i as int),
            None => self.tabs@,
        }
    }

    /// The selection after the selected tab has been removed and others are left.
    ///
    /// It stays on its index where that is below the last one, and otherwise moves one to the
    /// left.
    pub open spec fn selection_after_removal(self) -> Option<usize> {
        let count = self.remaining_tabs().len();
        if self.selected_or_first() < count - 1 {
            self.selected_tab
        } else if count > 1 {
            Some((self.selected_or_first() - 1) as usize)
        } else {
            Some(0)
        }
    }

    /// Removes the selected tab. Where none is left, a new one is started and selected.
    pub fn remove_selected_tab<F: FnOnce(TabRequest, &C, &E) -> Tab<P, T>>(&mut self, spawn: F)
        requires
            old(self).selected_tab is Some ==> old(self).selected_or_first() < old(
                self,
            ).tabs@.len(),
            old(self).remaining_tabs().len() == 0 ==> old(self).size is Some,
            forall|request: TabRequest|
                old(self).remaining_tabs().len() == 0 && #[trigger] old(self).is_request(request)
                    ==> call_requires(
                    spawn,
                    (request, &old(self).config, &old(self).event_proxy),
                ),
        ensures
            final(self).same_settings(*old(self)),
            old(self).remaining_tabs().len() > 0 ==> {
                &&& final(self).tabs@ == old(self).remaining_tabs()
                &&& final(self).selected_tab == old(self).selection_after_removal()
            },
            old(self).remaining_tabs().len() == 0 ==> {
                &&& final(self).selected_tab == Some(0usize)
                &&& final(self).tabs@.len() == 1
                &&& exists|request: TabRequest|
                    {
                        &&& #[trigger] old(self).is_request(request)
                        &&& call_ensures(
                            spawn,
                            (request, &old(self).config, &old(self).event_proxy),
                            final(self).tabs@[0],
                        )
                    }
            },
    {
        if let Some(idx) = self.selected_tab_idx() {
            let _removed = self.tabs.remove(idx);
        }
        let ghost middle = *self;
        assert(self.tabs@ =~= old(self).remaining_tabs());
        if self.num_tabs() == 0 {
            assert forall|request: TabRequest| #[trigger]
                middle.is_request(request) implies call_requires(
                spawn,
                (request, &middle.config, &middle.event_proxy),
            ) by {
                assert(old(self).is_request(request));
            }
            let _idx: usize = self.new_tab(spawn);
            assert(exists|request: TabRequest, tab: Tab<P, T>|
                {
                    &&& #[trigger] middle.is_request(request)
                    &&& call_ensures(
                        spawn,
                        (request, &middle.config, &middle.event_proxy),
                        tab,
                    )
                    &&& #[trigger] middle.added(tab, *self)
                });
            proof {
                let (request, tab) = choose|request: TabRequest, tab: Tab<P, T>|
                    {
                        &&& #[trigger] middle.is_request(request)
                        &&& call_ensures(
                            spawn,
                            (request, &middle.config, &middle.event_proxy),
                            tab,
                        )
                        &&& #[trigger] middle.added(tab, *self)
                    };
                assert(self.tabs@[0] == tab);
                assert(old(self).is_request(request));
            }
            self.set_selected_tab(0);
        } else {
            let cur_sel_tab_idx: usize = match self.selected_tab_idx() {
                Some(idx) => idx,
                None => 0,
            };
            let tabs_len: usize = self.tabs_len();
            if cur_sel_tab_idx < tabs_len - 1 {
                // The selection stays.
            } else {
                let new_tab_idx: usize = if tabs_len > 1 {
                    cur_sel_tab_idx - 1
                } else {
                    0
                };
                self.set_selected_tab(new_tab_idx);
            }
        }
    }

    /// The index of the tab that [`Self::selected_tab_arc`] hands out has a tab, or one can be
    /// started.
    pub open spec fn can_hand_out(self) -> bool {
        match self.selected_tab {
            Some(i) => i < self.tabs@.len(),
            None => self.tabs@.len() == 0 ==> self.size is Some,
        }
    }

    /// `after` is this window once its selected tab has been handed out.
    pub open spec fn handed_out<F: FnOnce(TabRequest, &C, &E) -> Tab<P, T>>(
        self,
        spawn: F,
        tab: Tab<P, T>,
        after: Self,
    ) -> bool {
        &&& after.same_settings(self)
        &&& after.tabs@[after.selected_or_first()] == tab
        &&& match self.selected_tab {
            Some(_) => after == self,
            None => {
                &&& after.selected_tab == Some(0usize)
                &&& if self.tabs@.len() > 0 {
                    after.tabs@ == self.tabs@
                } else {
                    &&& after.tabs@.len() == 1
                    &&& exists|request: TabRequest|
                        {
                            &&& #[trigger] self.is_request(request)
                            &&& call_ensures(
                                spawn,
                                (request, &self.config, &self.event_proxy),
                                tab,
                            )
                        }
                }
            },
        }
    }

    /// The selected tab. Where none is selected it is the first, which is started if there is
    /// no tab at all, and is selected now.
    pub fn selected_tab_arc<F: FnOnce(TabRequest, &C, &E) -> Tab<P, T>>(&mut self, spawn: F) -> (r: Arc<
        Tab<P, T>,
    >)
        requires
            old(self).can_hand_out(),
            forall|request: TabRequest|
                old(self).selected_tab is None && old(self).tabs@.len() == 0
                    && #[trigger] old(self).is_request(request) ==> call_requires(
                    spawn,
                    (request, &old(self).config, &old(self).event_proxy),
                ),
        ensures
            old(self).handed_out(spawn, *r, *final(self)),
    {
        match self.selected_tab_idx() {
            Some(sel_idx) => Arc::new(self.tabs[sel_idx].share()),
            None => {
                if self.num_tabs() == 0 {
                    let _idx: usize = self.new_tab(spawn);
                    proof {
                        let (request, tab) = choose|request: TabRequest, tab: Tab<P, T>|
                            {
                                &&& #[trigger] old(self).is_request(request)
                                &&& call_ensures(
                                    spawn,
                                    (request, &old(self).config, &old(self).event_proxy),
                                    tab,
                                )
                                &&& #[trigger] old(self).added(tab, *self)
                            };
                        assert(self.tabs@[0] == tab);
                    }
                }
                self.set_selected_tab(0);
                Arc::new(self.tabs[0].share())
            },
        }
    }

    /// The process of the selected tab.
    pub fn get_selected_tab_pty<F: FnOnce(TabRequest, &C, &E) -> Tab<P, T>>(&mut self, spawn: F) -> (r: Arc<
        P,
    >)
        requires
            old(self).can_hand_out(),
            forall|request: TabRequest|
                old(self).selected_tab is None && old(self).tabs@.len() == 0
                    && #[trigger] old(self).is_request(request) ==> call_requires(
                    spawn,
                    (request, &old(self).config, &old(self).event_proxy),
                ),
        ensures
            exists|tab: Tab<P, T>|
                #[trigger] old(self).handed_out(spawn, tab, *final(self)) && r == tab.pty,
    {
        let tab = self.selected_tab_arc(spawn);
        tab.pty.clone()
    }

    /// The terminal of the selected tab.
    pub fn get_selected_tab_terminal<F: FnOnce(TabRequest, &C, &E) -> Tab<P, T>>(&mut self, spawn: F) -> (r:
        Arc<T>)
        requires
            old(self).can_hand_out(),
            forall|request: TabRequest|
                old(self).selected_tab is None && old(self).tabs@.len() == 0
                    && #[trigger] old(self).is_request(request) ==> call_requires(
                    spawn,
                    (request, &old(self).config, &old(self).event_proxy),
                ),
        ensures
            exists|tab: Tab<P, T>|
                #[trigger] old(self).handed_out(spawn, tab, *final(self)) && r == tab.terminal,
    {
        let tab = self.selected_tab_arc(spawn);
        tab.terminal.clone()
    }

    /// Selects an index and returns the selection.
    pub fn select_tab(&mut self, idx: usize) -> (r: Option<usize>)
        ensures
            *final(self) == (TabManager { selected_tab: Some(idx), ..*old(self) }),
            r == Some(idx),
    {
        self.set_selected_tab(idx);
        self.selected_tab_idx()
    }

    /// The selected index.
    pub fn selected_tab_idx(&self) -> (r: Option<usize>)
        ensures
            r == self.selected_tab,
    {
        self.selected_tab
    }

    /// The index behind the selected one; the first one behind the last.
    pub open spec fn next_index(self) -> Option<usize> {
        match self.selected_tab {
            Some(i) => {
                if self.tabs@.len() == 0 {
                    None
                } else if i + 1 >= self.tabs@.len() {
                    Some(0)
                } else {
                    Some((i + 1) as usize)
                }
            },
            None => None,
        }
    }

    /// The index before the selected one; the last one before the first.
    pub open spec fn previous_index(self) -> Option<usize> {
        match self.selected_tab {
            Some(i) => {
                if i > 0 {
                    Some((i - 1) as usize)
                } else if self.tabs@.len() > 1 {
                    Some((self.tabs@.len() - 1) as usize)
                } else {
                    Some(0)
                }
            },
            None => None,
        }
    }

    /// Get index of next oldest tab.
    pub fn next_tab_idx(&self) -> (r: Option<usize>)
        requires
            self.tabs@.len() > 0 ==> self.selected_or_first() < usize::MAX,
        ensures
            r == self.next_index(),
    {
        match self.selected_tab_idx() {
            Some(idx) => {
                if self.num_tabs() == 0 {
                    None
                } else if idx + 1 >= self.num_tabs() {
                    Some(0)
                } else {
                    Some(idx + 1)
                }
            },
            None => None,
        }
    }

    /// Get index of next older tab.
    pub fn prev_tab_idx(&self) -> (r: Option<usize>)
        ensures
            r == self.previous_index(),
    {
        match self.selected_tab_idx() {
            Some(idx) => {
                if idx == 0 {
                    if self.num_tabs() > 1 {
                        Some(self.num_tabs() - 1)
                    } else {
                        Some(0)
                    }
                } else {
                    Some(idx - 1)
                }
            },
            None => None,
        }
    }

    /// Takes over the titles that the terminals have, tab by tab.
    pub fn update_tab_titles(&mut self, titles: &Vec<Option<String>>)
        requires
            titles@.len() == old(self).tabs@.len(),
            forall|i: int| 0 <= i < titles@.len() ==> can_show(#[trigger] titles@[i]),
        ensures
            *final(self) == (TabManager { tab_titles: final(self).tab_titles, ..*old(self) }),
            final(self).tab_titles@.len() == old(self).tabs@.len(),
            forall|i: int|
                0 <= i < titles@.len() ==> (#[trigger] final(self).tab_titles@[i])@ == marked_title(
                    text::optional(titles@[i]),
                    i,
                    old(self).selected_or_first(),
                ),
    {
        let selected_tab_idx: usize = match self.selected_tab_idx() {
            Some(idx) => idx,
            None => 0,
        };
        let mut tab_titles: Vec<String> = Vec::new();
        let mut tab_idx: usize = 0;
        while tab_idx < titles.len()
            invariant
                tab_idx <= titles@.len(),
                tab_titles@.len() == tab_idx,
                selected_tab_idx == old(self).selected_or_first(),
                forall|i: int| 0 <= i < titles@.len() ==> can_show(#[trigger] titles@[i]),
                forall|i: int|
                    0 <= i < tab_idx ==> (#[trigger] tab_titles@[i])@ == marked_title(
                        text::optional(titles@[i]),
                        i,
                        selected_tab_idx as int,
                    ),
            decreases titles@.len() - tab_idx,
        {
            assert(can_show(titles@[tab_idx as int]));
            let formatted_title = match &titles[tab_idx] {
                Some(title) => format_title(title),
                None => format_index(tab_idx),
            };
            let mut title = String::new();
            if tab_idx == selected_tab_idx {
                title.push('*');
            }
            title.append(formatted_title.as_str());
            assert(title@ =~= marked_title(
                text::optional(titles@[tab_idx as int]),
                tab_idx as int,
                selected_tab_idx as int,
            ));
            tab_titles.push(title);
            tab_idx += 1;
        }
        self.tab_titles = tab_titles;
    }

    /// Opens a tab and selects the index it was given; returns the terminal at that index, which
    /// has to be drawn.
    pub fn open_tab<F: FnOnce(TabRequest, &C, &E) -> Tab<P, T>>(&mut self, spawn: F) -> (r: Arc<T>)
        requires
            old(self).can_add(),
            old(self).selected_tab is Some ==> old(self).selected_or_first() < old(
                self,
            ).tabs@.len(),
            forall|request: TabRequest|
                old(self).is_request(request) ==> call_requires(
                    spawn,
                    (request, &old(self).config, &old(self).event_proxy),
                ),
        ensures
            final(self).same_settings(*old(self)),
            final(self).wf(),
            final(self).selected_tab == Some(old(self).new_index() as usize),
            exists|request: TabRequest, tab: Tab<P, T>|
                {
                    &&& #[trigger] old(self).is_request(request)
                    &&& call_ensures(
                        spawn,
                        (request, &old(self).config, &old(self).event_proxy),
                        tab,
                    )
                    &&& final(self).tabs@ == #[trigger] old(self).tabs_with(tab)
                },
            r == final(self).tabs@[old(self).new_index()].terminal,
    {
        let idx: usize = self.new_tab(spawn);
        proof {
            let (request, tab) = choose|request: TabRequest, tab: Tab<P, T>|
                {
                    &&& #[trigger] old(self).is_request(request)
                    &&& call_ensures(
                        spawn,
                        (request, &old(self).config, &old(self).event_proxy),
                        tab,
                    )
                    &&& #[trigger] old(self).added(tab, *self)
                };
            assert(self.tabs@ == old(self).tabs_with(tab));
        }
        let _selected = self.select_tab(idx);
        self.tabs[idx].share().terminal
    }

    /// Selects the tab before the selected one and returns its terminal, which has to be drawn.
    pub fn select_previous_tab(&mut self) -> (r: Arc<T>)
        requires
            old(self).previous_index() is Some,
            old(self).previous_index()->0 < old(self).tabs@.len(),
        ensures
            *final(self) == (TabManager {
                selected_tab: old(self).previous_index(),
                ..*old(self)
            }),
            r == old(self).tabs@[old(self).previous_index()->0 as int].terminal,
    {
        let idx: usize = self.prev_tab_idx().unwrap();
        let _selected = self.select_tab(idx);
        self.tabs[idx].share().terminal
    }

    /// Selects the tab behind the selected one and returns its terminal, which has to be drawn.
    pub fn select_next_tab(&mut self) -> (r: Arc<T>)
        requires
            old(self).next_index() is Some,
            old(self).selected_or_first() < usize::MAX,
        ensures
            *final(self) == (TabManager {
                selected_tab: old(self).next_index(),
                ..*old(self)
            }),
            r == old(self).tabs@[old(self).next_index()->0 as int].terminal,
    {
        let idx: usize = self.next_tab_idx().unwrap();
        let _selected = self.select_tab(idx);
        self.tabs[idx].share().terminal
    }
}

/// The title of a tab whose last eight bytes are not whole characters cannot be shown.
pub open spec fn can_show(title: Option<String>) -> bool {
    match title {
        Some(t) => {
            let bytes = vstd::utf8::encode_utf8(t@);
            !text::printable_ascii(t@) && bytes.len() > TAB_TITLE_WIDTH
                ==> vstd::utf8::is_char_boundary(bytes, bytes.len() - TAB_TITLE_WIDTH)
        },
        None => true,
    }
}

/// The last eight bytes of a title that has more, and otherwise the title, filled up to eight
/// columns. A printable ASCII character is one byte and takes one column.
pub open spec fn shown_title(title: Seq<char>) -> Seq<char> {
    let bytes = vstd::utf8::encode_utf8(title);
    if text::printable_ascii(title) {
        if title.len() > TAB_TITLE_WIDTH {
            title.skip(title.len() - TAB_TITLE_WIDTH)
        } else {
            title + text::repeated(' ', TAB_TITLE_WIDTH - title.len())
        }
    } else if bytes.len() > TAB_TITLE_WIDTH {
        vstd::utf8::decode_utf8(
            bytes.subrange(bytes.len() - TAB_TITLE_WIDTH, bytes.len() as int),
        )
    } else {
        title + text::repeated(' ', TAB_TITLE_WIDTH - padding::display_columns(title))
    }
}

/// The number of a tab, filled up or cut to eight characters.
pub open spec fn shown_index(idx: int) -> Seq<char> {
    let number = text::decimal(idx as nat);
    if number.len() > TAB_TITLE_WIDTH {
        number.take(TAB_TITLE_WIDTH as int)
    } else {
        number + text::repeated(' ', TAB_TITLE_WIDTH - number.len())
    }
}

/// What the tab bar shows for a tab: its title or its number, behind a star where it is selected.
pub open spec fn marked_title(title: Option<Seq<char>>, idx: int, selected: int) -> Seq<char> {
    (if idx == selected {
        seq!['*']
    } else {
        Seq::empty()
    }) + (match title {
        Some(t) => shown_title(t),
        None => shown_index(idx),
    })
}

/// Printable ASCII text has a byte for every character, and can be cut anywhere.
proof fn lemma_ascii_bytes(s: Seq<char>, cut: int)
    requires
        text::printable_ascii(s),
        0 <= cut <= s.len(),
    ensures
        vstd::utf8::encode_utf8(s).len() == s.len(),
        vstd::utf8::is_char_boundary(vstd::utf8::encode_utf8(s), cut),
        vstd::utf8::encode_utf8(s).subrange(cut, s.len() as int) == vstd::utf8::encode_utf8(
            s.skip(cut),
        ),
{
    let bytes = vstd::utf8::encode_utf8(s);
    assert(vstd::utf8::is_ascii_chars(s));
    assert(vstd::utf8::is_ascii_chars(s.skip(cut)));
    vstd::utf8::is_ascii_chars_encode_utf8(s);
    vstd::utf8::is_ascii_chars_encode_utf8(s.skip(cut));
    vstd::utf8::encode_utf8_valid_utf8(s);
    vstd::utf8::is_char_boundary_start_end_of_seq(bytes);
    if cut < s.len() {
        assert(bytes[cut] == s[cut] as u8);
        vstd::utf8::is_char_boundary_iff_not_is_continuation_byte(bytes, cut);
    }
    assert(bytes.subrange(cut, s.len() as int) =~= vstd::utf8::encode_utf8(s.skip(cut)));
}

fn format_title(title: &String) -> (r: String)
    requires
        can_show(Some(*title)),
    ensures
        r@ == shown_title(title@),
{
    let text: &str = title.as_str();
    let len: usize = text.as_bytes().len();
    proof {
        if text::printable_ascii(title@) {
            lemma_ascii_bytes(title@, 0);
            if len > TAB_TITLE_WIDTH {
                lemma_ascii_bytes(title@, len - TAB_TITLE_WIDTH);
                vstd::utf8::encode_utf8_decode_utf8(title@.skip(len - TAB_TITLE_WIDTH));
            }
        }
    }
    if len > TAB_TITLE_WIDTH {
        let (_, tail) = text.split_at(len - TAB_TITLE_WIDTH);
        proof {
            vstd::utf8::encode_utf8_decode_utf8(tail@);
        }
        tail.to_owned()
    } else {
        padding::with_exact_width(text, TAB_TITLE_WIDTH)
    }
}

fn format_index(idx: usize) -> (r: String)
    ensures
        r@ == shown_index(idx as int),
{
    let mut number = String::new();
    text::push_decimal(&mut number, idx);
    proof {
        text::lemma_decimal_printable(idx as nat);
    }
    assert(number@ =~= text::decimal(idx as nat));
    padding::pad_left_aligned(number.as_str(), TAB_TITLE_WIDTH, ' ', true)
}

/// Stepping to the next tab and back, or back and to the next, ends on the same tab.
pub proof fn law_next_and_previous_undo_each_other<E, C, P, T>(tm: TabManager<E, C, P, T>)
    requires
        tm.wf(),
        tm.tabs@.len() > 0,
    ensures
        (TabManager { selected_tab: tm.next_index(), ..tm }).previous_index() == tm.selected_tab,
        (TabManager { selected_tab: tm.previous_index(), ..tm }).next_index() == tm.selected_tab,
{
    assert(tm.tabs@.len() == tm.tabs.len());
}

/// The window after `count` steps to the next tab.
pub open spec fn after_next_steps<E, C, P, T>(
    tm: TabManager<E, C, P, T>,
    count: nat,
) -> TabManager<E, C, P, T>
    decreases count,
{
    if count == 0 {
        tm
    } else {
        let before = after_next_steps(tm, (count - 1) as nat);
        TabManager { selected_tab: before.next_index(), ..before }
    }
}

/// Stepping to the next tab goes round: after `count` steps the tab `count` places further on is
/// selected, counted modulo the number of tabs. So every tab is reached, and as many steps as
/// there are tabs lead back.
pub proof fn law_next_goes_round<E, C, P, T>(tm: TabManager<E, C, P, T>, count: nat)
    requires
        tm.wf(),
        tm.tabs@.len() > 0,
    ensures
        after_next_steps(tm, count) == (TabManager {
            selected_tab: Some(
                ((tm.selected_or_first() + count) % tm.tabs@.len() as int) as usize,
            ),
            ..tm
        }),
    decreases count,
{
    let n = tm.tabs@.len() as int;
    let i = tm.selected_or_first();
    assert(n == tm.tabs.len());
    if count == 0 {
        vstd::arithmetic::div_mod::lemma_small_mod(i as nat, n as nat);
    } else {
        law_next_goes_round(tm, (count - 1) as nat);
        let before = (i + count - 1) % n;
        vstd::arithmetic::div_mod::lemma_mod_bound(i + count - 1, n);
        vstd::arithmetic::div_mod::lemma_add_mod_noop(i + count - 1, 1, n);
        if before + 1 >= n {
            assert(before + 1 == n);
            if n == 1 {
                vstd::arithmetic::div_mod::lemma_mod_self_0(1);
                vstd::arithmetic::div_mod::lemma_mod_bound(i + count, n);
            } else {
                vstd::arithmetic::div_mod::lemma_small_mod(1, n as nat);
                vstd::arithmetic::div_mod::lemma_mod_self_0(n);
                assert((i + count) % n == (before + 1) % n);
            }
        } else {
            vstd::arithmetic::div_mod::lemma_small_mod(1, n as nat);
            vstd::arithmetic::div_mod::lemma_small_mod((before + 1) as nat, n as nat);
            assert((i + count) % n == (before + 1) % n);
        }
    }
}

/// The index that a new tab is given is the one where it is, the other tabs keep their order, and
/// the selection stays a tab.
pub proof fn law_new_tab_is_at_its_index<E, C, P, T>(
    before: TabManager<E, C, P, T>,
    tab: Tab<P, T>,
    after: TabManager<E, C, P, T>,
)
    requires
        before.wf(),
        before.can_insert(),
        before.added(tab, after),
    ensures
        after.wf(),
        before.new_index() < after.tabs@.len(),
        after.tabs@[before.new_index()] == tab,
        after.tabs@.remove(before.new_index()) == before.tabs@,
{
    assert(after.tabs@.remove(before.new_index()) =~= before.tabs@);
}

/// Opening a tab and removing it again leaves the tabs as they were.
pub proof fn law_remove_undoes_open<E, C, P, T>(
    before: TabManager<E, C, P, T>,
    tab: Tab<P, T>,
    opened: TabManager<E, C, P, T>,
)
    requires
        before.wf(),
        opened.tabs@ == before.tabs_with(tab),
        opened.selected_tab == Some(before.new_index() as usize),
        before.new_index() <= usize::MAX,
    ensures
        opened.remaining_tabs() == before.tabs@,
{
    assert(opened.remaining_tabs() =~= before.tabs@);
}

/// Removing the selected tab leaves the selection on one of the tabs that are left.
pub proof fn law_removal_keeps_selection_valid<E, C, P, T>(
    before: TabManager<E, C, P, T>,
    after: TabManager<E, C, P, T>,
)
    requires
        before.wf(),
        before.remaining_tabs().len() > 0,
        after.tabs@ == before.remaining_tabs(),
        after.selected_tab == before.selection_after_removal(),
    ensures
        after.wf(),
{
}

/// The number of a tab takes exactly eight characters.
pub proof fn law_index_title_width(idx: int)
    requires
        idx >= 0,
    ensures
        shown_index(idx).len() == TAB_TITLE_WIDTH,
{
}

/// A title of printable ASCII characters takes exactly eight of them.
pub proof fn law_ascii_title_width(title: Seq<char>)
    requires
        text::printable_ascii(title),
    ensures
        shown_title(title).len() == TAB_TITLE_WIDTH,
{
}

/// A title that is too long is shown by exactly its last eight bytes.
pub proof fn law_long_title_shows_its_end(title: Seq<char>)
    requires
        vstd::utf8::encode_utf8(title).len() > TAB_TITLE_WIDTH,
        text::printable_ascii(title) || vstd::utf8::is_char_boundary(
            vstd::utf8::encode_utf8(title),
            vstd::utf8::encode_utf8(title).len() - TAB_TITLE_WIDTH,
        ),
    ensures
        vstd::utf8::encode_utf8(shown_title(title)).len() == TAB_TITLE_WIDTH,
        vstd::utf8::encode_utf8(shown_title(title)).is_suffix_of(vstd::utf8::encode_utf8(title)),
{
    let bytes = vstd::utf8::encode_utf8(title);
    let cut = bytes.len() - TAB_TITLE_WIDTH;
    if text::printable_ascii(title) {
        lemma_ascii_bytes(title, 0);
        lemma_ascii_bytes(title, cut);
    }
    vstd::utf8::encode_utf8_valid_utf8(title);
    vstd::utf8::valid_utf8_split(bytes, cut);
    vstd::utf8::decode_utf8_encode_utf8(bytes.subrange(cut, bytes.len() as int));
    assert(bytes =~= bytes.subrange(0, cut) + bytes.subrange(cut, bytes.len() as int));
}

} // verus!
