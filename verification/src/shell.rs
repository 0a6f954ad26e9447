//! The state a host keeps between frames, and what each input does to it:
//! the open tabs, one page per tab, and the selected tab.

use crate::document::{scroll_after, Page};
use crate::tabs::{next_index, previous_index, TabsState};
use vstd::prelude::*;

verus! {

/// An input, already decoded by the host.
pub enum Command {
    /// Stop.
    Quit,
    /// Select the tab after the current one.
    NextTab,
    /// Select the tab before the current one.
    PreviousTab,
    /// Show one row more above.
    ScrollUp,
    /// Show one row more below.
    ScrollDown,
    /// Open a tab with this label and this page behind the last tab.
    OpenTab(String, Page),
    /// Close the last tab.
    CloseTab,
}

/// The open tabs and their pages, `pages[i]` belonging to `tabs.titles[i]`.
pub struct Shell {
    pub tabs: TabsState,
    pub pages: Vec<Page>,
}

/// The selected index once the last of `len` tabs is closed: where it was,
/// or on the new last tab if it pointed at the closed one.
pub open spec fn index_after_close(index: int, len: int) -> int {
    if index < len - 1 {
        index
    } else if len >= 2 {
        len - 2
    } else {
        0
    }
}

impl Shell {
    /// Every tab has its page, and the selected index points at a tab.
    pub open spec fn wf(&self) -> bool {
        &&& self.tabs.wf()
        &&& self.pages@.len() == self.tabs.titles@.len()
    }

    /// The number of open tabs.
    pub open spec fn len(&self) -> int {
        self.tabs.titles@.len() as int
    }

    /// `after` has the labels and the selection of `self`.
    pub open spec fn same_tabs(&self, after: Shell) -> bool {
        &&& after.tabs.titles == self.tabs.titles
        &&& after.tabs.index == self.tabs.index
    }

    /// `after` is `self` with the selected page scrolled by `amount` rows,
    /// unless there is no tab or the offset would leave the range of `u16`.
    pub open spec fn scrolled(&self, amount: int, after: Shell) -> bool {
        let index = self.tabs.index as int;
        &&& self.same_tabs(after)
        &&& after.pages@.len() == self.pages@.len()
        &&& forall|i: int|
            0 <= i < self.pages@.len() && i != index ==> #[trigger] after.pages@[i]
                == self.pages@[i]
        &&& self.len() > 0 ==> {
            &&& after.pages@[index].lines == self.pages@[index].lines
            &&& after.pages@[index].scroll == if self.pages@[index].scroll + amount <= u16::MAX {
                scroll_after(self.pages@[index].scroll as int, amount)
            } else {
                self.pages@[index].scroll as int
            }
        }
    }

    /// `after` is what `command` makes of `self`.
    pub open spec fn step(&self, command: Command, after: Shell) -> bool {
        match command {
            Command::Quit => after == *self,
            Command::NextTab => {
                &&& after.tabs.titles == self.tabs.titles
                &&& after.pages == self.pages
                &&& after.tabs.index == if self.len() > 0 {
                    next_index(self.tabs.index as int, self.len())
                } else {
                    self.tabs.index as int
                }
            },
            Command::PreviousTab => {
                &&& after.tabs.titles == self.tabs.titles
                &&& after.pages == self.pages
                &&& after.tabs.index == if self.len() > 0 {
                    previous_index(self.tabs.index as int, self.len())
                } else {
                    self.tabs.index as int
                }
            },
            Command::ScrollUp => self.scrolled(-1, after),
            Command::ScrollDown => self.scrolled(1, after),
            Command::OpenTab(title, page) => {
                &&& after.tabs.titles@ == self.tabs.titles@.push(title)
                &&& after.pages@ == self.pages@.push(page)
                &&& after.tabs.index == self.tabs.index
            },
            Command::CloseTab => if self.len() > 0 {
                &&& after.tabs.titles@ == self.tabs.titles@.drop_last()
                &&& after.pages@ == self.pages@.drop_last()
                &&& after.tabs.index == index_after_close(self.tabs.index as int, self.len())
            } else {
                after == *self
            },
        }
    }

    /// A shell with one tab, which is selected.
    pub fn new(title: String, page: Page) -> (shell: Shell)
        ensures
            shell.wf(),
            shell.tabs.titles@ == seq![title],
            shell.pages@ == seq![page],
            shell.tabs.index == 0,
    {
        let mut titles: Vec<String> = Vec::new();
        titles.push(title);
        let mut pages: Vec<Page> = Vec::new();
        pages.push(page);
        Shell { tabs: TabsState { titles, index: 0 }, pages }
    }

    /// Scrolls the selected page by `amount` rows, if there is one and the
    /// new offset fits in a `u16`.
    pub fn scroll(&mut self, amount: i32)
        requires
            old(self).wf(),
        ensures
            final(self).wf(),
            old(self).scrolled(amount as int, *final(self)),
    {
        let index = self.tabs.index;
        if index < self.pages.len() {
            let scroll = self.pages[index].get_scroll();
            if scroll as i64 + amount as i64 <= u16::MAX as i64 {
                self.pages[index].change_scroll(amount);
            }
        }
    }

    /// Closes the last tab with its page, and moves the selection to the new
    /// last tab if it pointed at the closed one. Without tabs nothing changes.
    pub fn close_tab(&mut self)
        requires
            old(self).wf(),
        ensures
            final(self).wf(),
            old(self).step(Command::CloseTab, *final(self)),
    {
        if self.tabs.titles.len() > 0 {
            self.tabs.titles.pop();
            self.pages.pop();
            let len = self.tabs.titles.len();
            if self.tabs.index >= len {
                self.tabs.index = if len > 0 {
                    len - 1
                } else {
                    0
                };
            }
        }
    }

    /// Applies one input to the state, and says whether the host goes on:
    /// it stops on `Quit` and when no tab is left.
    pub fn apply(&mut self, command: Command) -> (running: bool)
        requires
            old(self).wf(),
        ensures
            final(self).wf(),
            old(self).step(command, *final(self)),
            running == (!(command is Quit) && final(self).len() > 0),
    {
        match command {
            Command::Quit => {
                return false;
            },
            Command::NextTab => {
                if self.tabs.titles.len() > 0 {
                    self.tabs.next();
                }
            },
            Command::PreviousTab => {
                if self.tabs.titles.len() > 0 {
                    self.tabs.previous();
                }
            },
            Command::ScrollUp => self.scroll(-1),
            Command::ScrollDown => self.scroll(1),
            Command::OpenTab(title, page) => {
                self.tabs.titles.push(title);
                self.pages.push(page);
            },
            Command::CloseTab => self.close_tab(),
        }
        self.tabs.titles.len() > 0
    }
}

} // verus!
