//! The selection state: the records on show, the one marked current, and the
//! one under the cursor.

use vstd::prelude::*;
use vstd::arithmetic::div_mod::{lemma_mod_self_0, lemma_small_mod};
use crate::context::{context_views, KubeContext, KubeContextView};

verus! {

/// The index after `index` in a list of `len` records, wrapping to the first.
pub open spec fn next_index(index: int, len: int) -> int {
    (index + 1) % len
}

/// The index before `index` in a list of `len` records, wrapping to the last.
pub open spec fn previous_index(index: int, len: int) -> int {
    (index - 1 + len) % len
}

/// The index reached from `index` by moving down `times` times.
pub open spec fn next_index_repeated(index: int, len: int, times: nat) -> int
    decreases times,
{
    if times == 0 {
        index
    } else {
        next_index(next_index_repeated(index, len, (times - 1) as nat), len)
    }
}

/// Moving down goes to the following index, and from the last to the first.
pub proof fn lemma_next_index_step(index: int, len: int)
    requires
        0 <= index < len,
    ensures
        next_index(index, len) == if index + 1 < len { index + 1 } else { 0 },
{
    if index + 1 < len {
        lemma_small_mod((index + 1) as nat, len as nat);
    } else {
        lemma_mod_self_0(len);
    }
}

/// Moving up goes to the preceding index, and from the first to the last.
pub proof fn lemma_previous_index_step(index: int, len: int)
    requires
        0 <= index < len,
    ensures
        previous_index(index, len) == if index == 0 { len - 1 } else { index - 1 },
{
    if index == 0 {
        lemma_small_mod((len - 1) as nat, len as nat);
    } else {
        lemma_small_mod((index - 1) as nat, len as nat);
        assert((index - 1 + len) % len == (index - 1) % len) by {
            vstd::arithmetic::div_mod::lemma_mod_add_multiples_vanish(index - 1, len);
        }
    }
}

/// Moving down `times` times, at most once round the list, advances the index
/// by `times` and takes off the length of the list where that passes the end.
pub proof fn lemma_next_index_repeated(index: int, len: int, times: nat)
    requires
        0 <= index < len,
        times <= len,
    ensures
        next_index_repeated(index, len, times) == if index + times < len {
            index + times
        } else {
            index + times - len
        },
    decreases times,
{
    if times > 0 {
        let before = (times - 1) as nat;
        lemma_next_index_repeated(index, len, before);
        lemma_next_index_step(next_index_repeated(index, len, before), len);
    }
}

/// The selection state of one session.
#[derive(Debug)]
pub struct App {
    contexts: Vec<KubeContext>,
    current_context: String,
    selected_index: usize,
    config_path: String,
}

/// An `App` as mathematical values.
pub struct AppView {
    pub contexts: Seq<KubeContextView>,
    pub current_context: Seq<char>,
    pub selected_index: int,
    pub config_path: Seq<char>,
}

impl AppView {
    /// The cursor is on a record, or at 0 where there is none.
    pub open spec fn wf(self) -> bool {
        if self.contexts.len() == 0 {
            self.selected_index == 0
        } else {
            0 <= self.selected_index < self.contexts.len()
        }
    }

    /// The state after a move down: unchanged where there is no record.
    pub open spec fn moved_down(self) -> AppView {
        if self.contexts.len() == 0 {
            self
        } else {
            AppView {
                selected_index: next_index(self.selected_index, self.contexts.len() as int),
                ..self
            }
        }
    }

    /// The state after `times` moves down.
    pub open spec fn moved_down_times(self, times: nat) -> AppView
        decreases times,
    {
        if times == 0 {
            self
        } else {
            self.moved_down_times((times - 1) as nat).moved_down()
        }
    }

    /// The state after a move up: unchanged where there is no record.
    pub open spec fn moved_up(self) -> AppView {
        if self.contexts.len() == 0 {
            self
        } else {
            AppView {
                selected_index: previous_index(self.selected_index, self.contexts.len() as int),
                ..self
            }
        }
    }
}

/// Moving down any number of times changes nothing but the cursor, which
/// goes where that many steps from its index lead.
pub proof fn lemma_moved_down_times(state: AppView, times: nat)
    requires
        state.contexts.len() > 0,
    ensures
        state.moved_down_times(times) == (AppView {
            selected_index: next_index_repeated(
                state.selected_index,
                state.contexts.len() as int,
                times,
            ),
            ..state
        }),
    decreases times,
{
    if times > 0 {
        lemma_moved_down_times(state, (times - 1) as nat);
    }
}

/// In a list that is not empty, moving down as many times as the list has
/// records brings the state back to where it started.
pub proof fn lemma_next_wraps_around(state: AppView)
    requires
        state.wf(),
        state.contexts.len() > 0,
    ensures
        state.moved_down_times(state.contexts.len()) == state,
{
    let len = state.contexts.len();
    lemma_moved_down_times(state, len);
    lemma_next_index_repeated(state.selected_index, len as int, len);
}

/// In a list that is not empty, moving up from the first record puts the
/// cursor on the last.
pub proof fn lemma_previous_from_first(state: AppView)
    requires
        state.wf(),
        state.contexts.len() > 0,
        state.selected_index == 0,
    ensures
        state.moved_up().selected_index == state.contexts.len() - 1,
        state.moved_up().wf(),
{
    lemma_previous_index_step(0, state.contexts.len() as int);
}

/// Moving down and then up, or up and then down, brings the state back to
/// where it started.
pub proof fn lemma_next_previous_inverse(state: AppView)
    requires
        state.wf(),
    ensures
        state.moved_down().moved_up() == state,
        state.moved_up().moved_down() == state,
{
    if state.contexts.len() > 0 {
        let index = state.selected_index;
        let len = state.contexts.len() as int;
        lemma_next_index_step(index, len);
        lemma_previous_index_step(index, len);
        lemma_previous_index_step(next_index(index, len), len);
        lemma_next_index_step(previous_index(index, len), len);
    }
}

/// Moving keeps the cursor on a record.
pub proof fn lemma_moves_keep_wf(state: AppView)
    requires
        state.wf(),
    ensures
        state.moved_down().wf(),
        state.moved_up().wf(),
{
    if state.contexts.len() > 0 {
        lemma_next_index_step(state.selected_index, state.contexts.len() as int);
        lemma_previous_index_step(state.selected_index, state.contexts.len() as int);
    }
}

impl View for App {
    type V = AppView;

    closed spec fn view(&self) -> AppView {
        AppView {
            contexts: context_views(self.contexts@),
            current_context: self.current_context@,
            selected_index: self.selected_index as int,
            config_path: self.config_path@,
        }
    }
}

impl App {
    #[verifier::type_invariant]
    spec fn cursor_in_list(self) -> bool {
        self@.wf()
    }

    /// The state at the start of browsing: the records as loaded, the cursor
    /// on the first.
    pub fn new(contexts: Vec<KubeContext>, current_context: String, config_path: String) -> (app: App)
        ensures
            app@ == (AppView {
                contexts: context_views(contexts@),
                current_context: current_context@,
                selected_index: 0,
                config_path: config_path@,
            }),
            app@.wf(),
    {
        App { contexts, current_context, selected_index: 0, config_path }
    }

    /// The records on show, in file order.
    pub fn contexts(&self) -> (contexts: &Vec<KubeContext>)
        ensures
            context_views(contexts@) == self@.contexts,
    {
        &self.contexts
    }

    /// The name that the file marked as current when it was loaded.
    pub fn current_context(&self) -> (name: &String)
        ensures
            name@ == self@.current_context,
    {
        &self.current_context
    }

    /// The index of the record under the cursor; 0 where there is no record.
    pub fn selected_index(&self) -> (index: usize)
        ensures
            index == self@.selected_index,
            self@.wf(),
    {
        proof {
            use_type_invariant(self);
        }
        self.selected_index
    }

    /// The path of the file that the records were loaded from.
    pub fn config_path(&self) -> (path: &String)
        ensures
            path@ == self@.config_path,
    {
        &self.config_path
    }

    /// The record under the cursor; none where the list is empty.
    pub fn selected_context(&self) -> (selected: Option<&KubeContext>)
        ensures
            self@.wf(),
            match selected {
                Some(context) => self@.contexts.len() > 0 && context@
                    == self@.contexts[self@.selected_index],
                None => self@.contexts.len() == 0,
            },
    {
        proof {
            use_type_invariant(self);
        }
        if self.contexts.len() == 0 {
            None
        } else {
            Some(&self.contexts[self.selected_index])
        }
    }

    /// Moves the cursor down one record, from the last to the first.
    pub fn next(&mut self)
        ensures
            final(self)@ == old(self)@.moved_down(),
            final(self)@.wf(),
    {
        proof {
            use_type_invariant(&*self);
        }
        let len = self.contexts.len();
        if len > 0 {
            self.selected_index = (self.selected_index + 1) % len;
        }
    }

    /// Moves the cursor up one record, from the first to the last.
    pub fn previous(&mut self)
        ensures
            final(self)@ == old(self)@.moved_up(),
            final(self)@.wf(),
    {
        proof {
            use_type_invariant(&*self);
        }
        let len = self.contexts.len();
        if len > 0 {
            proof {
                lemma_previous_index_step(self.selected_index as int, len as int);
            }
            if self.selected_index > 0 {
                self.selected_index -= 1;
            } else {
                self.selected_index = len - 1;
            }
        }
    }
}

} // verus!
