//! The state of the display: which view is shown, what is selected, and how
//! keys and ticks change that. Drawing is left to the terminal front end.
use crate::model::{duplicate_transactions, transaction_views, Block, Header, Transaction};
use crate::primitives::BlockHash;
use crate::utils::{etherscan_block_url, etherscan_transaction_url};
use vstd::prelude::*;
use vstd::view::View as _;

verus! {

/// The views of the display.
#[derive(Copy, Clone, Debug, PartialEq, Eq, Structural)]
pub enum View {
    /// The list of the latest blocks.
    Default,
    /// One block and its transactions.
    Block,
    /// One transaction.
    Transaction,
}

impl Default for View {
    fn default() -> (r: Self)
        ensures
            r is Default,
    {
        View::Default
    }
}

/// A list of items of which at most one is selected.
#[derive(Clone, Debug)]
pub struct StatefulList<T> {
    /// The index of the selected item.
    pub selected: Option<usize>,
    /// The items.
    pub items: Vec<T>,
}

/// The selection after moving down: the first item where nothing was
/// selected or the last item was, else the next item.
pub open spec fn selection_after_next(selected: Option<usize>, len: nat) -> Option<usize> {
    match selected {
        Some(i) => if i >= len - 1 {
            Some(0)
        } else {
            Some((i + 1) as usize)
        },
        None => Some(0),
    }
}

/// The selection after moving up: the first item where nothing was selected,
/// the last item where the first was, else the previous item.
pub open spec fn selection_after_previous(selected: Option<usize>, len: nat) -> Option<usize> {
    match selected {
        Some(i) => if i == 0 {
            Some((len - 1) as usize)
        } else {
            Some((i - 1) as usize)
        },
        None => Some(0),
    }
}

impl<T> StatefulList<T> {
    /// A list of the given items with nothing selected.
    pub fn with_items(items: Vec<T>) -> (r: Self)
        ensures
            r.selected is None,
            r.items@ == items@,
    {
        StatefulList { selected: None, items }
    }

    /// Moves the selection down, wrapping from the last item to the first.
    /// A list with a selection must not be empty.
    pub fn next(&mut self)
        requires
            old(self).selected is Some ==> old(self).items@.len() > 0,
        ensures
            final(self).items@ == old(self).items@,
            final(self).selected == selection_after_next(
                old(self).selected,
                old(self).items@.len(),
            ),
    {
        let i = match self.selected {
            Some(i) => {
                if i >= self.items.len() - 1 {
                    0
                } else {
                    i + 1
                }
            },
            None => 0,
        };
        self.selected = Some(i);
    }

    /// Moves the selection up, wrapping from the first item to the last.
    /// A list with a selection must not be empty.
    pub fn previous(&mut self)
        requires
            old(self).selected is Some ==> old(self).items@.len() > 0,
        ensures
            final(self).items@ == old(self).items@,
            final(self).selected == selection_after_previous(
                old(self).selected,
                old(self).items@.len(),
            ),
    {
        let i = match self.selected {
            Some(i) => {
                if i == 0 {
                    self.items.len() - 1
                } else {
                    i - 1
                }
            },
            None => 0,
        };
        self.selected = Some(i);
    }

    /// The index of the selected item, where the selection points at one.
    pub open spec fn selected_index(self) -> Option<int> {
        match self.selected {
            Some(i) => if i < self.items@.len() {
                Some(i as int)
            } else {
                None
            },
            None => None,
        }
    }

    /// The selected item, where the selection points at one.
    pub fn selected_item(&self) -> (r: Option<&T>)
        ensures
            match self.selected_index() {
                Some(i) => r == Some(&self.items@[i]),
                None => r is None,
            },
    {
        match self.selected {
            Some(i) => if i < self.items.len() {
                Some(&self.items[i])
            } else {
                None
            },
            None => None,
        }
    }
}

/// The state of the display.
#[derive(Clone, Debug)]
pub struct App {
    pub title: String,
    pub should_quit: bool,
    pub block_headers: StatefulList<Header>,
    pub transactions: StatefulList<Transaction>,
    pub view: View,
    pub selected_block: Block,
    pub selected_transaction: Transaction,
}

/// The view after the escape key: up one level.
pub open spec fn view_after_esc(view: View) -> View {
    match view {
        View::Default => View::Default,
        View::Block => View::Default,
        View::Transaction => View::Block,
    }
}

/// The view after the enter key: down to the block where a header is
/// selected, and from the block on to the transaction where one is
/// selected.
pub open spec fn view_after_enter(view: View, header: bool, transaction: bool) -> View {
    let first = if header {
        View::Block
    } else {
        view
    };
    match first {
        View::Block => if transaction {
            View::Transaction
        } else {
            View::Block
        },
        other => other,
    }
}

/// Whether a run of headers holds one equal to the given header.
pub open spec fn holds_header(headers: Seq<Header>, header: Header) -> bool {
    exists|i: int| 0 <= i < headers.len() && (#[trigger] headers[i])@ == header@
}

impl App {
    /// The display at start: the default view, nothing listed, and the
    /// given block and transaction as the ones to show.
    pub fn new(title: String, selected_block: Block, selected_transaction: Transaction) -> (r:
        Self)
        ensures
            r.title@ == title@,
            r.selected_block == selected_block,
            r.selected_transaction == selected_transaction,
            r.block_headers.items@.len() == 0 && r.block_headers.selected is None,
            r.transactions.items@.len() == 0 && r.transactions.selected is None,
            !r.should_quit,
            r.view is Default,
    {
        App {
            title,
            selected_block,
            selected_transaction,
            block_headers: StatefulList::with_items(Vec::new()),
            transactions: StatefulList::with_items(Vec::new()),
            should_quit: false,
            view: View::Default,
        }
    }

    /// Whether the selections of both lists point into their lists or at
    /// nothing: what moving the selection asks for.
    pub open spec fn movable(self) -> bool {
        &&& (self.block_headers.selected is Some ==> self.block_headers.items@.len() > 0)
        &&& (self.transactions.selected is Some ==> self.transactions.items@.len() > 0)
    }

    /// The escape key: quits from the default view, else goes up one level.
    pub fn on_esc(&mut self)
        ensures
            final(self).view == view_after_esc(old(self).view),
            final(self).should_quit == (old(self).should_quit || old(self).view is Default),
            final(self).title == old(self).title,
            final(self).block_headers == old(self).block_headers,
            final(self).transactions == old(self).transactions,
            final(self).selected_block == old(self).selected_block,
            final(self).selected_transaction == old(self).selected_transaction,
    {
        match self.view {
            View::Default => {
                self.should_quit = true;
            },
            View::Block => {
                self.view = View::Default;
            },
            View::Transaction => {
                self.view = View::Block;
            },
        }
    }

    /// The interrupt key: quits.
    pub fn on_quit(&mut self)
        ensures
            final(self).should_quit,
            final(self).view == old(self).view,
            final(self).title == old(self).title,
            final(self).block_headers == old(self).block_headers,
            final(self).transactions == old(self).transactions,
            final(self).selected_block == old(self).selected_block,
            final(self).selected_transaction == old(self).selected_transaction,
    {
        self.should_quit = true;
    }

    /// A character key. `q` quits. `e` asks for the block or transaction on
    /// show to be opened in the public explorer: the result is the link to
    /// open, if any.
    pub fn on_key(&mut self, c: char) -> (link: Option<String>)
        ensures
            final(self).should_quit == (old(self).should_quit || c == 'q'),
            final(self).view == old(self).view,
            final(self).title == old(self).title,
            final(self).block_headers == old(self).block_headers,
            final(self).transactions == old(self).transactions,
            final(self).selected_block == old(self).selected_block,
            final(self).selected_transaction == old(self).selected_transaction,
            link is Some <==> c == 'e' && !(old(self).view is Default),
            link matches Some(url) ==> url@ == (if old(self).view is Block {
                "https://etherscan.io/block/"@ + crate::decimal::decimal_text(
                    old(self).selected_block.header.number as nat,
                )
            } else {
                "https://etherscan.io/tx/"@ + crate::hex::hex_text(
                    old(self).selected_transaction.hash@,
                )
            }),
    {
        if c == 'q' {
            self.should_quit = true;
        }
        match self.view {
            View::Block => {
                if c == 'e' {
                    Some(etherscan_block_url(self.selected_block.header.number))
                } else {
                    None
                }
            },
            View::Transaction => {
                if c == 'e' {
                    Some(etherscan_transaction_url(&self.selected_transaction.hash))
                } else {
                    None
                }
            },
            View::Default => None,
        }
    }

    /// The enter key: goes down to what is selected.
    pub fn on_enter(&mut self)
        ensures
            final(self).view == view_after_enter(
                old(self).view,
                old(self).block_headers.selected_index() is Some,
                old(self).transactions.selected_index() is Some,
            ),
            final(self).should_quit == old(self).should_quit,
            final(self).title == old(self).title,
            final(self).block_headers == old(self).block_headers,
            final(self).transactions == old(self).transactions,
            final(self).selected_block == old(self).selected_block,
            final(self).selected_transaction == old(self).selected_transaction,
    {
        if self.block_headers.selected_item().is_some() {
            self.view = View::Block;
        }
        match self.view {
            View::Default => {},
            View::Block => {
                if self.transactions.selected_item().is_some() {
                    self.view = View::Transaction;
                }
            },
            View::Transaction => {},
        }
    }

    /// The up key: moves the selection of the list on show.
    pub fn on_up(&mut self)
        requires
            old(self).movable(),
        ensures
            final(self).view == old(self).view,
            final(self).should_quit == old(self).should_quit,
            final(self).title == old(self).title,
            final(self).selected_block == old(self).selected_block,
            final(self).selected_transaction == old(self).selected_transaction,
            final(self).block_headers.items@ == old(self).block_headers.items@,
            final(self).transactions.items@ == old(self).transactions.items@,
            final(self).block_headers.selected == (if old(self).view is Default {
                selection_after_previous(
                    old(self).block_headers.selected,
                    old(self).block_headers.items@.len(),
                )
            } else {
                old(self).block_headers.selected
            }),
            final(self).transactions.selected == (if old(self).view is Block {
                selection_after_previous(
                    old(self).transactions.selected,
                    old(self).transactions.items@.len(),
                )
            } else {
                old(self).transactions.selected
            }),
    {
        match self.view {
            View::Default => self.block_headers.previous(),
            View::Block => self.transactions.previous(),
            View::Transaction => {},
        }
    }

    /// The down key: moves the selection of the list on show.
    pub fn on_down(&mut self)
        requires
            old(self).movable(),
        ensures
            final(self).view == old(self).view,
            final(self).should_quit == old(self).should_quit,
            final(self).title == old(self).title,
            final(self).selected_block == old(self).selected_block,
            final(self).selected_transaction == old(self).selected_transaction,
            final(self).block_headers.items@ == old(self).block_headers.items@,
            final(self).transactions.items@ == old(self).transactions.items@,
            final(self).block_headers.selected == (if old(self).view is Default {
                selection_after_next(
                    old(self).block_headers.selected,
                    old(self).block_headers.items@.len(),
                )
            } else {
                old(self).block_headers.selected
            }),
            final(self).transactions.selected == (if old(self).view is Block {
                selection_after_next(
                    old(self).transactions.selected,
                    old(self).transactions.items@.len(),
                )
            } else {
                old(self).transactions.selected
            }),
    {
        match self.view {
            View::Default => self.block_headers.next(),
            View::Block => self.transactions.next(),
            View::Transaction => {},
        }
    }

    /// First part of a tick: takes in the latest header of the store, which
    /// is listed unless an equal header already is. The result is the hash of
    /// the block to look up next: that of the selected header, unless the
    /// block view is on show.
    pub fn on_tick(&mut self, latest_header: Header) -> (lookup: Option<BlockHash>)
        ensures
            final(self).view == old(self).view,
            final(self).should_quit == old(self).should_quit,
            final(self).block_headers.selected == old(self).block_headers.selected,
            final(self).transactions == old(self).transactions,
            final(self).title == old(self).title,
            final(self).selected_block == old(self).selected_block,
            final(self).selected_transaction == old(self).selected_transaction,
            final(self).block_headers.items@ == (if holds_header(
                old(self).block_headers.items@,
                latest_header,
            ) {
                old(self).block_headers.items@
            } else {
                old(self).block_headers.items@.push(latest_header)
            }),
            match final(self).block_headers.selected_index() {
                Some(i) => if old(self).view is Block {
                    lookup is None
                } else {
                    lookup == Some(final(self).block_headers.items@[i].hash)
                },
                None => lookup is None,
            },
    {
        let mut known = false;
        let mut i: usize = 0;
        while i < self.block_headers.items.len()
            invariant
                i <= self.block_headers.items@.len(),
                known <==> holds_header(self.block_headers.items@.take(i as int), latest_header),
            decreases self.block_headers.items@.len() - i,
        {
            let same = self.block_headers.items[i].same(&latest_header);
            proof {
                let seen = self.block_headers.items@.take(i as int);
                let next = self.block_headers.items@.take(i + 1);
                assert(forall|j: int| 0 <= j < i ==> next[j] == seen[j]);
                assert(next[i as int] == self.block_headers.items@[i as int]);
                if holds_header(seen, latest_header) {
                    let w = choose|w: int| 0 <= w < seen.len() && (#[trigger] seen[w])@
                        == latest_header@;
                    assert(next[w]@ == latest_header@);
                }
                if same {
                    assert(next[i as int]@ == latest_header@);
                }
                if holds_header(next, latest_header) && !same {
                    let w = choose|w: int| 0 <= w < next.len() && (#[trigger] next[w])@
                        == latest_header@;
                    assert(seen[w]@ == latest_header@);
                }
            }
            if same {
                known = true;
            }
            i = i + 1;
        }
        assert(self.block_headers.items@.take(i as int) =~= self.block_headers.items@);
        if !known {
            self.block_headers.items.push(latest_header);
        }
        let blocked = match self.view {
            View::Block => true,
            _ => false,
        };
        match self.block_headers.selected_item() {
            Some(header) => if blocked {
                None
            } else {
                Some(header.hash)
            },
            None => None,
        }
    }

    /// Second part of a tick: takes in the block that the store has for the
    /// hash that the first part asked for. A block that was found becomes the
    /// block on show, and its transactions are listed with nothing selected.
    pub fn on_block(&mut self, found: Option<Block>)
        ensures
            final(self).view == old(self).view,
            final(self).should_quit == old(self).should_quit,
            final(self).title == old(self).title,
            final(self).block_headers == old(self).block_headers,
            final(self).selected_transaction == old(self).selected_transaction,
            match found {
                Some(block) => final(self).selected_block == block && transaction_views(
                    final(self).transactions.items@,
                ) == block@.transactions && final(self).transactions.selected is None,
                None => final(self).selected_block == old(self).selected_block
                    && final(self).transactions == old(self).transactions,
            },
    {
        if let Some(block) = found {
            self.transactions = StatefulList::with_items(
                duplicate_transactions(&block.transactions),
            );
            self.selected_block = block;
        }
    }

    /// Last part of a tick: the selected transaction becomes the one on
    /// show, unless the transaction view is on show.
    pub fn on_transaction(&mut self)
        ensures
            final(self).view == old(self).view,
            final(self).should_quit == old(self).should_quit,
            final(self).block_headers == old(self).block_headers,
            final(self).title == old(self).title,
            final(self).transactions == old(self).transactions,
            final(self).selected_block == old(self).selected_block,
            match old(self).transactions.selected_index() {
                Some(i) => if old(self).view is Transaction {
                    final(self).selected_transaction == old(self).selected_transaction
                } else {
                    final(self).selected_transaction@ == old(self).transactions.items@[i]@
                },
                None => final(self).selected_transaction == old(self).selected_transaction,
            },
    {
        let shown = match self.view {
            View::Transaction => true,
            _ => false,
        };
        if !shown {
            let copy = match self.transactions.selected_item() {
                Some(tx) => Some(tx.duplicate()),
                None => None,
            };
            if let Some(tx) = copy {
                self.selected_transaction = tx;
            }
        }
    }

    /// The header that is selected in the list of blocks, if any.
    pub fn get_selected_header(&self) -> (r: Option<&Header>)
        ensures
            match self.block_headers.selected_index() {
                Some(i) => r == Some(&self.block_headers.items@[i]),
                None => r is None,
            },
    {
        self.block_headers.selected_item()
    }

    /// The transaction that is selected in the list of transactions, if any.
    pub fn get_selected_transaction(&self) -> (r: Option<&Transaction>)
        ensures
            match self.transactions.selected_index() {
                Some(i) => r == Some(&self.transactions.items@[i]),
                None => r is None,
            },
    {
        self.transactions.selected_item()
    }

    /// The data of the gas chart: the number and the gas used of every
    /// listed block, in order.
    pub fn chart_data(&self) -> (r: Vec<(String, u64)>)
        ensures
            r@.len() == self.block_headers.items@.len(),
            forall|i: int|
                0 <= i < r@.len() ==> (#[trigger] r@[i]).0@ == crate::decimal::decimal_text(
                    self.block_headers.items@[i].number as nat,
                ) && r@[i].1 == self.block_headers.items@[i].gas_used,
    {
        let mut out: Vec<(String, u64)> = Vec::new();
        let mut i: usize = 0;
        while i < self.block_headers.items.len()
            invariant
                i <= self.block_headers.items@.len(),
                out@.len() == i,
                forall|j: int|
                    0 <= j < i ==> (#[trigger] out@[j]).0@ == crate::decimal::decimal_text(
                        self.block_headers.items@[j].number as nat,
                    ) && out@[j].1 == self.block_headers.items@[j].gas_used,
            decreases self.block_headers.items@.len() - i,
        {
            let header = &self.block_headers.items[i];
            out.push((crate::decimal::u64_to_decimal(header.number), header.gas_used));
            i = i + 1;
        }
        out
    }
}

} // verus!
