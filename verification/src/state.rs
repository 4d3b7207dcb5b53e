use vstd::prelude::*;

use crate::types::{MongoLog, Severity, lemma_level_names_distinct};
use crate::utils::{decimal_seq, usize_to_string};

verus! {

/// Which of the four severity levels are currently visible. All four start
/// enabled.
#[derive(Clone, Copy, PartialEq, Eq, Structural, Debug)]
pub struct VerboseFilters {
    pub informational: bool,
    pub warning: bool,
    pub error: bool,
    pub fatal: bool,
}

/// An entry's severity passes the toggles when its display text equals the
/// name of an enabled level. A preserved unknown text passes only when it
/// happens to equal one of the four names.
pub open spec fn spec_severity_passes(s: Severity, f: VerboseFilters) -> bool {
    ||| (f.informational && s@.label() == "Informational"@)
    ||| (f.warning && s@.label() == "Warning"@)
    ||| (f.error && s@.label() == "Error"@)
    ||| (f.fatal && s@.label() == "Fatal"@)
}

/// Decides whether an entry's severity passes the toggles.
pub fn severity_passes(s: &Severity, f: &VerboseFilters) -> (r: bool)
    ensures
        r == spec_severity_passes(*s, *f),
{
    proof {
        lemma_level_names_distinct();
    }
    match s {
        Severity::Informational => f.informational,
        Severity::Warning => f.warning,
        Severity::Error => f.error,
        Severity::Fatal => f.fatal,
        Severity::Other(t) => {
            (f.informational && *t == "Informational".to_owned()) || (f.warning && *t
                == "Warning".to_owned()) || (f.error && *t == "Error".to_owned()) || (f.fatal && *t
                == "Fatal".to_owned())
        },
    }
}

/// Some string in `msgs` has exactly the characters `m`.
pub open spec fn contains_msg(msgs: Seq<String>, m: Seq<char>) -> bool {
    exists|k: int| 0 <= k < msgs.len() && msgs[k]@ == m
}

/// No two strings in `msgs` have the same characters.
pub open spec fn msgs_unique(msgs: Seq<String>) -> bool {
    forall|k: int, l: int| 0 <= k < l < msgs.len() ==> msgs[k]@ != msgs[l]@
}

/// Decides whether `m`'s text is one of the excluded messages.
fn msg_excluded(msgs: &Vec<String>, m: &String) -> (r: bool)
    ensures
        r == contains_msg(msgs@, m@),
{
    let n: usize = msgs.len();
    let mut i: usize = 0;
    while i < n
        invariant
            i <= n,
            n == msgs@.len(),
            forall|k: int| 0 <= k < i ==> msgs@[k]@ != m@,
        decreases n - i,
    {
        if msgs[i] == *m {
            return true;
        }
        i = i + 1;
    }
    false
}

/// An entry is in the current view exactly when its severity flag is enabled
/// and its message text is not excluded.
pub open spec fn spec_visible(l: MongoLog, f: VerboseFilters, msgs: Seq<String>) -> bool {
    spec_severity_passes(l.s, f) && !contains_msg(msgs, l.msg@)
}

/// The ordered subsequence of `logs` that the filter state keeps visible.
pub open spec fn visible_seq(logs: Seq<MongoLog>, f: VerboseFilters, msgs: Seq<String>) -> Seq<
    MongoLog,
> {
    logs.filter(|l: MongoLog| spec_visible(l, f, msgs))
}

/// One unfolding step of `visible_seq` over a prefix of `logs`.
proof fn lemma_visible_seq_step(logs: Seq<MongoLog>, f: VerboseFilters, msgs: Seq<String>, i: int)
    requires
        0 <= i < logs.len(),
    ensures
        visible_seq(logs.subrange(0, i + 1), f, msgs) == (if spec_visible(logs[i], f, msgs) {
            visible_seq(logs.subrange(0, i), f, msgs).push(logs[i])
        } else {
            visible_seq(logs.subrange(0, i), f, msgs)
        }),
{
    reveal(Seq::<_>::filter);
    let t = logs.subrange(0, i + 1);
    assert(t.drop_last() =~= logs.subrange(0, i));
    assert(t.last() == logs[i]);
}

/// The display row for the view entry `l` at view position `i`: the position,
/// the date text, the severity, the component and context tags, and the
/// message.
pub open spec fn spec_row(i: int, l: MongoLog) -> Seq<Seq<char>> {
    seq![decimal_seq(i as nat), l.t@, l.s@.label(), l.c@, l.ctx@, l.msg@]
}

/// `items` holds exactly the display rows of the view entries `logs`, in
/// order.
pub open spec fn rows_ok(items: Seq<Vec<String>>, logs: Seq<MongoLog>) -> bool {
    &&& items.len() == logs.len()
    &&& forall|i: int|
        0 <= i < logs.len() ==> (#[trigger] items[i]).deep_view() == spec_row(i, logs[i])
}

/// Builds the display row for the entry `l` at view position `i`.
fn make_row(i: usize, l: &MongoLog) -> (r: Vec<String>)
    ensures
        r.deep_view() == spec_row(i as int, *l),
{
    let mut row: Vec<String> = Vec::new();
    row.push(usize_to_string(i));
    row.push(l.t.clone());
    row.push(l.s.label());
    row.push(l.c.clone());
    row.push(l.ctx.clone());
    row.push(l.msg.clone());
    proof {
        assert(row.deep_view() =~~= spec_row(i as int, *l));
    }
    row
}

/// The interactive session state: the append-only record store, the active
/// filter state, the derived view, and the selection and focus state.
pub struct App {
    /// The selected view row, if any.
    pub selected: Option<usize>,
    /// True while the list pane has focus; false while the detail pane does.
    pub log_view_active: bool,
    /// The detail pane's scroll offset, as a row and column pair.
    pub details_offset: (u16, u16),
    /// Every decoded entry of the session, in input order.
    pub logs: Vec<MongoLog>,
    /// The display rows of the visible entries.
    pub view_items: Vec<Vec<String>>,
    /// The visible entries, in store order.
    pub view_logs: Vec<MongoLog>,
    /// The severity toggles.
    pub verbose_filters: VerboseFilters,
    /// The entry the selected row refers to, if any.
    pub selected_log: Option<MongoLog>,
    /// The excluded message texts, each held once.
    pub filtered_msgs: Vec<String>,
}

impl App {
    /// The selection is in range of the view, the rows match the view's
    /// length, and no message is excluded twice.
    pub open spec fn wf(self) -> bool {
        &&& (match self.selected {
            Some(i) => i < self.view_logs@.len(),
            None => true,
        })
        &&& self.view_items@.len() == self.view_logs@.len()
        &&& msgs_unique(self.filtered_msgs@)
    }

    /// A fresh session: no records, everything visible, nothing excluded,
    /// nothing selected, the list pane focused, the detail pane unscrolled.
    pub fn new() -> (a: App)
        ensures
            a.selected is None,
            a.log_view_active == true,
            a.details_offset == (0u16, 0u16),
            a.logs@ == Seq::<MongoLog>::empty(),
            a.view_items@ == Seq::<Vec<String>>::empty(),
            a.view_logs@ == Seq::<MongoLog>::empty(),
            a.verbose_filters == (VerboseFilters {
                informational: true,
                warning: true,
                error: true,
                fatal: true,
            }),
            a.selected_log is None,
            a.filtered_msgs@ == Seq::<String>::empty(),
            a.wf(),
    {
        App {
            selected: None,
            log_view_active: true,
            details_offset: (0, 0),
            logs: Vec::new(),
            view_items: Vec::new(),
            view_logs: Vec::new(),
            verbose_filters: VerboseFilters {
                informational: true,
                warning: true,
                error: true,
                fatal: true,
            },
            selected_log: None,
            filtered_msgs: Vec::new(),
        }
    }

    /// Appends one decoded entry to the record store.
    pub fn push(&mut self, row: MongoLog)
        requires
            old(self).wf(),
        ensures
            final(self).wf(),
            final(self).logs@ == old(self).logs@.push(row),
            final(self).selected == old(self).selected,
            final(self).log_view_active == old(self).log_view_active,
            final(self).details_offset == old(self).details_offset,
            final(self).view_items == old(self).view_items,
            final(self).view_logs == old(self).view_logs,
            final(self).verbose_filters == old(self).verbose_filters,
            final(self).selected_log == old(self).selected_log,
            final(self).filtered_msgs == old(self).filtered_msgs,
    {
        self.logs.push(row);
    }

    /// `post`'s derived view is the one that `logs`, the toggles `f` and the
    /// exclusions `msgs` determine: the visible entries with their rows, the
    /// first row selected when any row remains, and no selection otherwise.
    pub open spec fn view_post(
        post: App,
        logs: Seq<MongoLog>,
        f: VerboseFilters,
        msgs: Seq<String>,
    ) -> bool {
        &&& post.view_logs@ == visible_seq(logs, f, msgs)
        &&& rows_ok(post.view_items@, post.view_logs@)
        &&& (post.view_logs@.len() > 0 ==> post.selected == Some(0usize) && post.selected_log
            == Some(post.view_logs@[0]) && post.details_offset == (0u16, 0u16))
        &&& (post.view_logs@.len() == 0 ==> post.selected is None && post.selected_log is None)
    }

    /// What one recomputation does: the store and filter state are untouched;
    /// with an empty store nothing changes at all, and otherwise the view is
    /// rederived from the store and the filter state, with the scroll offset
    /// kept only when no row remains to select.
    pub open spec fn recompute_rel(pre: App, post: App) -> bool {
        &&& post.logs == pre.logs
        &&& post.verbose_filters == pre.verbose_filters
        &&& post.filtered_msgs == pre.filtered_msgs
        &&& post.log_view_active == pre.log_view_active
        &&& (pre.logs@.len() == 0 ==> post == pre)
        &&& (pre.logs@.len() > 0 ==> App::view_post(
            post,
            pre.logs@,
            pre.verbose_filters,
            pre.filtered_msgs@,
        ) && (visible_seq(pre.logs@, pre.verbose_filters, pre.filtered_msgs@).len() == 0
            ==> post.details_offset == pre.details_offset))
    }

    /// Recomputes the derived view from the record store and the active filter
    /// state, and resets the selection: the first remaining row is selected
    /// when there is one. With an empty store there is nothing to derive and
    /// the state is left as it is.
    pub fn filter_logs(&mut self)
        requires
            old(self).wf(),
        ensures
            final(self).wf(),
            App::recompute_rel(*old(self), *final(self)),
    {
        if self.logs.len() > 0 {
            let ghost f = self.verbose_filters;
            let ghost msgs = self.filtered_msgs@;
            let mut view_logs: Vec<MongoLog> = Vec::new();
            let mut view_items: Vec<Vec<String>> = Vec::new();
            let n: usize = self.logs.len();
            let mut i: usize = 0;
            proof {
                assert(self.logs@.subrange(0, 0) =~= Seq::<MongoLog>::empty());
                reveal(Seq::<_>::filter);
            }
            while i < n
                invariant
                    i <= n,
                    n == self.logs@.len(),
                    f == self.verbose_filters,
                    msgs == self.filtered_msgs@,
                    view_logs@ == visible_seq(self.logs@.subrange(0, i as int), f, msgs),
                    rows_ok(view_items@, view_logs@),
                decreases n - i,
            {
                let l = &self.logs[i];
                let passes = severity_passes(&l.s, &self.verbose_filters);
                let excluded = msg_excluded(&self.filtered_msgs, &l.msg);
                proof {
                    lemma_visible_seq_step(self.logs@, f, msgs, i as int);
                }
                if passes && !excluded {
                    view_items.push(make_row(view_logs.len(), l));
                    view_logs.push(l.clone());
                }
                i = i + 1;
            }
            proof {
                assert(self.logs@.subrange(0, n as int) =~= self.logs@);
            }
            self.view_logs = view_logs;
            self.view_items = view_items;
            self.selected = None;
            self.selected_log = None;
            if self.view_logs.len() > 0 {
                self.selected = Some(0);
                let first = self.view_logs[0].clone();
                self.selected_log = Some(first);
                self.details_offset = (0, 0);
            }
        }
    }

    /// The view row that one forward step from `sel` reaches in a view of
    /// `len` rows: the next row, wrapping past the last back to the first, and
    /// the first row when nothing is selected.
    pub open spec fn spec_wrap_next(sel: Option<usize>, len: int) -> int {
        match sel {
            None => 0,
            Some(i) => if i as int >= len - 1 {
                0
            } else {
                i as int + 1
            },
        }
    }

    /// The view row that one backward step from `sel` reaches in a view of
    /// `len` rows: the previous row, wrapping before the first to the last,
    /// and the first row when nothing is selected.
    pub open spec fn spec_wrap_previous(sel: Option<usize>, len: int) -> int {
        match sel {
            None => 0,
            Some(i) => if i == 0 {
                len - 1
            } else {
                i as int - 1
            },
        }
    }

    /// Rebinds `selected_log` to the entry of the selected view row, or to
    /// nothing when no row is selected.
    pub fn set_selected_log(&mut self)
        requires
            old(self).wf(),
        ensures
            final(self).wf(),
            final(self).selected_log == (match old(self).selected {
                None => None::<MongoLog>,
                Some(i) => Some(old(self).view_logs@[i as int]),
            }),
            final(self).selected == old(self).selected,
            final(self).log_view_active == old(self).log_view_active,
            final(self).details_offset == old(self).details_offset,
            final(self).logs == old(self).logs,
            final(self).view_items == old(self).view_items,
            final(self).view_logs == old(self).view_logs,
            final(self).verbose_filters == old(self).verbose_filters,
            final(self).filtered_msgs == old(self).filtered_msgs,
    {
        match self.selected {
            None => {
                self.selected_log = None;
            },
            Some(i) => {
                let log = self.view_logs[i].clone();
                self.selected_log = Some(log);
            },
        }
    }

    /// Moves one step forward. With the list pane focused this advances the
    /// selection through the view with wraparound and rewinds the detail
    /// scroll; with an empty view it changes nothing. With the detail pane
    /// focused it scrolls the detail row down, saturating at the largest
    /// offset the pane can hold.
    pub fn next(&mut self)
        requires
            old(self).wf(),
        ensures
            final(self).wf(),
            final(self).logs == old(self).logs,
            final(self).view_items == old(self).view_items,
            final(self).view_logs == old(self).view_logs,
            final(self).verbose_filters == old(self).verbose_filters,
            final(self).filtered_msgs == old(self).filtered_msgs,
            final(self).log_view_active == old(self).log_view_active,
            (if old(self).log_view_active {
                if old(self).view_logs@.len() == 0 {
                    *final(self) == *old(self)
                } else {
                    let j = App::spec_wrap_next(old(self).selected, old(self).view_logs@.len() as int);
                    &&& final(self).selected == Some(j as usize)
                    &&& final(self).selected_log == Some(old(self).view_logs@[j])
                    &&& final(self).details_offset == (0u16, 0u16)
                }
            } else {
                &&& final(self).selected == old(self).selected
                &&& final(self).selected_log == old(self).selected_log
                &&& final(self).details_offset.0 == (if old(self).details_offset.0 < u16::MAX {
                    (old(self).details_offset.0 + 1) as u16
                } else {
                    u16::MAX
                })
                &&& final(self).details_offset.1 == old(self).details_offset.1
            }),
    {
        if self.log_view_active {
            if self.view_items.len() > 0 {
                let len: usize = self.view_items.len();
                let i: usize = match self.selected {
                    Some(i) => if i >= len - 1 {
                        0
                    } else {
                        i + 1
                    },
                    None => 0,
                };
                self.selected = Some(i);
                self.set_selected_log();
                self.details_offset = (0, 0);
            }
        } else {
            let row: u16 = self.details_offset.0;
            let new_row: u16 = if row < u16::MAX {
                row + 1
            } else {
                row
            };
            self.details_offset = (new_row, self.details_offset.1);
        }
    }

    /// Moves one step backward. With the list pane focused this retreats the
    /// selection through the view with wraparound and rewinds the detail
    /// scroll; with an empty view it changes nothing. With the detail pane
    /// focused it scrolls the detail row up, saturating at zero.
    pub fn previous(&mut self)
        requires
            old(self).wf(),
        ensures
            final(self).wf(),
            final(self).logs == old(self).logs,
            final(self).view_items == old(self).view_items,
            final(self).view_logs == old(self).view_logs,
            final(self).verbose_filters == old(self).verbose_filters,
            final(self).filtered_msgs == old(self).filtered_msgs,
            final(self).log_view_active == old(self).log_view_active,
            (if old(self).log_view_active {
                if old(self).view_logs@.len() == 0 {
                    *final(self) == *old(self)
                } else {
                    let j = App::spec_wrap_previous(
                        old(self).selected,
                        old(self).view_logs@.len() as int,
                    );
                    &&& final(self).selected == Some(j as usize)
                    &&& final(self).selected_log == Some(old(self).view_logs@[j])
                    &&& final(self).details_offset == (0u16, 0u16)
                }
            } else {
                &&& final(self).selected == old(self).selected
                &&& final(self).selected_log == old(self).selected_log
                &&& final(self).details_offset.0 == (if old(self).details_offset.0 > 0 {
                    (old(self).details_offset.0 - 1) as u16
                } else {
                    0u16
                })
                &&& final(self).details_offset.1 == old(self).details_offset.1
            }),
    {
        if self.log_view_active {
            if self.view_items.len() > 0 {
                let len: usize = self.view_items.len();
                let i: usize = match self.selected {
                    Some(i) => if i == 0 {
                        len - 1
                    } else {
                        i - 1
                    },
                    None => 0,
                };
                self.selected = Some(i);
                self.set_selected_log();
                self.details_offset = (0, 0);
            }
        } else {
            let row: u16 = self.details_offset.0;
            let new_row: u16 = if row > 0 {
                row - 1
            } else {
                0
            };
            self.details_offset = (new_row, self.details_offset.1);
        }
    }

    /// The view row to report on a confirm intent: the selected one, if any.
    pub fn enter(&self) -> (r: Option<usize>)
        ensures
            r == self.selected,
    {
        self.selected
    }

    /// Flips the Informational toggle and recomputes the view.
    pub fn toggle_verbosity_informational(&mut self)
        requires
            old(self).wf(),
        ensures
            final(self).wf(),
            final(self).verbose_filters == (VerboseFilters {
                informational: !old(self).verbose_filters.informational,
                ..old(self).verbose_filters
            }),
            App::recompute_rel(
                (App { verbose_filters: final(self).verbose_filters, ..*old(self) }),
                *final(self),
            ),
    {
        self.verbose_filters.informational = !self.verbose_filters.informational;
        self.filter_logs();
    }

    /// Flips the Warning toggle and recomputes the view.
    pub fn toggle_verbosity_warning(&mut self)
        requires
            old(self).wf(),
        ensures
            final(self).wf(),
            final(self).verbose_filters == (VerboseFilters {
                warning: !old(self).verbose_filters.warning,
                ..old(self).verbose_filters
            }),
            App::recompute_rel(
                (App { verbose_filters: final(self).verbose_filters, ..*old(self) }),
                *final(self),
            ),
    {
        self.verbose_filters.warning = !self.verbose_filters.warning;
        self.filter_logs();
    }

    /// Flips the Error toggle and recomputes the view.
    pub fn toggle_verbosity_error(&mut self)
        requires
            old(self).wf(),
        ensures
            final(self).wf(),
            final(self).verbose_filters == (VerboseFilters {
                error: !old(self).verbose_filters.error,
                ..old(self).verbose_filters
            }),
            App::recompute_rel(
                (App { verbose_filters: final(self).verbose_filters, ..*old(self) }),
                *final(self),
            ),
    {
        self.verbose_filters.error = !self.verbose_filters.error;
        self.filter_logs();
    }

    /// Flips the Fatal toggle and recomputes the view.
    pub fn toggle_verbosity_fatal(&mut self)
        requires
            old(self).wf(),
        ensures
            final(self).wf(),
            final(self).verbose_filters == (VerboseFilters {
                fatal: !old(self).verbose_filters.fatal,
                ..old(self).verbose_filters
            }),
            App::recompute_rel(
                (App { verbose_filters: final(self).verbose_filters, ..*old(self) }),
                *final(self),
            ),
    {
        self.verbose_filters.fatal = !self.verbose_filters.fatal;
        self.filter_logs();
    }

    /// The entry of the selected view row, if any row is selected.
    fn get_log_for_selection(&self) -> (r: Option<MongoLog>)
        requires
            self.wf(),
        ensures
            r == (match self.selected {
                None => None::<MongoLog>,
                Some(i) => Some(self.view_logs@[i as int]),
            }),
    {
        match self.selected {
            Some(i) => {
                let log = self.view_logs[i].clone();
                Some(log)
            },
            None => None,
        }
    }

    /// What excluding the selected message does: with no selection nothing
    /// changes; with the selected entry's message already excluded nothing
    /// changes either; otherwise that message joins the exclusions once and
    /// the view is recomputed.
    pub open spec fn exclude_rel(pre: App, post: App) -> bool {
        match pre.selected {
            None => post == pre,
            Some(i) => {
                let m = pre.view_logs@[i as int].msg;
                if contains_msg(pre.filtered_msgs@, m@) {
                    post == pre
                } else {
                    &&& post.filtered_msgs@ == pre.filtered_msgs@.push(m)
                    &&& App::recompute_rel(
                        (App { filtered_msgs: post.filtered_msgs, ..pre }),
                        post,
                    )
                }
            },
        }
    }

    /// Excludes the message text of the selected entry and recomputes the
    /// view. Excluding an already-excluded message, or excluding with no
    /// selection, changes nothing.
    pub fn exclude_selected_msg(&mut self)
        requires
            old(self).wf(),
        ensures
            final(self).wf(),
            App::exclude_rel(*old(self), *final(self)),
    {
        let log = self.get_log_for_selection();
        match log {
            Some(log) => {
                let excluded = msg_excluded(&self.filtered_msgs, &log.msg);
                if !excluded {
                    self.filtered_msgs.push(log.msg.clone());
                    self.filter_logs();
                }
            },
            None => {},
        }
    }

    /// What a reset does: every exclusion is dropped and the view is
    /// recomputed under the untouched severity toggles.
    pub open spec fn reset_rel(pre: App, post: App) -> bool {
        &&& post.filtered_msgs@ == Seq::<String>::empty()
        &&& App::recompute_rel((App { filtered_msgs: post.filtered_msgs, ..pre }), post)
    }

    /// Clears every excluded message and recomputes the view; the severity
    /// toggles are untouched.
    pub fn reset_msg_filter(&mut self)
        requires
            old(self).wf(),
        ensures
            final(self).wf(),
            App::reset_rel(*old(self), *final(self)),
    {
        self.filtered_msgs = Vec::new();
        self.filter_logs();
    }
}

/// The visible view is a selection from the store: it is never longer than
/// the store, every entry in it passes the filter state, and every store
/// entry that passes the filter state appears in it.
pub proof fn lemma_visible_seq_characterization(
    logs: Seq<MongoLog>,
    f: VerboseFilters,
    msgs: Seq<String>,
)
    ensures
        visible_seq(logs, f, msgs).len() <= logs.len(),
        forall|i: int|
            0 <= i < visible_seq(logs, f, msgs).len() ==> spec_visible(
                #[trigger] visible_seq(logs, f, msgs)[i],
                f,
                msgs,
            ),
        forall|i: int|
            0 <= i < logs.len() && spec_visible(#[trigger] logs[i], f, msgs) ==> visible_seq(
                logs,
                f,
                msgs,
            ).contains(logs[i]),
{
    let pred = |l: MongoLog| spec_visible(l, f, msgs);
    logs.lemma_filter_len(pred);
    assert forall|i: int| 0 <= i < visible_seq(logs, f, msgs).len() implies spec_visible(
        #[trigger] visible_seq(logs, f, msgs)[i],
        f,
        msgs,
    ) by {
        logs.lemma_filter_pred(pred, i);
    }
    assert forall|i: int|
        0 <= i < logs.len() && spec_visible(#[trigger] logs[i], f, msgs) implies visible_seq(
        logs,
        f,
        msgs,
    ).contains(logs[i]) by {
        logs.lemma_filter_contains(pred, i);
    }
}

/// Recomputing the view a second time with the store and the filter state
/// unchanged yields exactly the view, rows and selection that the first
/// recomputation already produced.
pub proof fn lemma_recompute_idempotent(a: App, b: App, c: App)
    requires
        App::recompute_rel(a, b),
        App::recompute_rel(b, c),
    ensures
        c.view_logs@ == b.view_logs@,
        c.view_items.deep_view() == b.view_items.deep_view(),
        c.selected == b.selected,
        c.selected_log == b.selected_log,
{
    if a.logs@.len() == 0 {
    } else {
        assert(c.view_logs@ == b.view_logs@);
        lemma_rows_deep_view_agree(b.view_items, c.view_items, b.view_logs@);
    }
}

/// Two row tables of the same view hold the same display text.
proof fn lemma_rows_deep_view_agree(x: Vec<Vec<String>>, y: Vec<Vec<String>>, logs: Seq<MongoLog>)
    requires
        rows_ok(x@, logs),
        rows_ok(y@, logs),
    ensures
        x.deep_view() == y.deep_view(),
{
    assert forall|i: int| 0 <= i < x@.len() implies x.deep_view()[i] == y.deep_view()[i] by {
        assert(x@[i].deep_view() == spec_row(i, logs[i]));
        assert(y@[i].deep_view() == spec_row(i, logs[i]));
    }
    assert(x.deep_view() =~= y.deep_view());
}

/// After any recomputation over a non-empty store — in particular after a
/// severity toggle that may have removed the selected entry — the first
/// remaining row is selected when any row remains, and nothing is selected
/// when none does.
pub proof fn lemma_recompute_reselects(pre: App, post: App)
    requires
        pre.logs@.len() > 0,
        App::recompute_rel(pre, post),
    ensures
        visible_seq(pre.logs@, pre.verbose_filters, pre.filtered_msgs@).len() > 0 ==> post.selected
            == Some(0usize),
        visible_seq(pre.logs@, pre.verbose_filters, pre.filtered_msgs@).len() == 0
            ==> post.selected is None,
{
}

/// What the view looks like after a reset depends only on the store and the
/// severity toggles: any two exclusion histories over the same non-empty
/// store and the same toggles lead, after a reset, to the same visible
/// entries and the same selection.
pub proof fn lemma_reset_restores(pre1: App, post1: App, pre2: App, post2: App)
    requires
        pre1.logs@ == pre2.logs@,
        pre1.logs@.len() > 0,
        pre1.verbose_filters == pre2.verbose_filters,
        App::reset_rel(pre1, post1),
        App::reset_rel(pre2, post2),
    ensures
        post1.view_logs@ == post2.view_logs@,
        post1.selected == post2.selected,
        post1.selected_log == post2.selected_log,
{
    assert(post1.view_logs@ == visible_seq(pre1.logs@, pre1.verbose_filters, Seq::<String>::empty()));
    assert(post2.view_logs@ == visible_seq(pre2.logs@, pre2.verbose_filters, Seq::<String>::empty()));
}

/// Exclusions never hold a message twice: after any exclude intent the
/// exclusion set is still duplicate-free, and an exclude whose selected
/// message is already excluded leaves the whole state unchanged.
pub proof fn lemma_exclude_dedup(pre: App, post: App)
    requires
        pre.wf(),
        App::exclude_rel(pre, post),
    ensures
        msgs_unique(post.filtered_msgs@),
        (match pre.selected {
            Some(i) => contains_msg(pre.filtered_msgs@, pre.view_logs@[i as int].msg@),
            None => true,
        }) ==> post == pre,
{
    match pre.selected {
        None => {
        },
        Some(i) => {
            let m = pre.view_logs@[i as int].msg;
            if !contains_msg(pre.filtered_msgs@, m@) {
                let msgs = pre.filtered_msgs@.push(m);
                assert forall|k: int, l: int| 0 <= k < l < msgs.len() implies msgs[k]@ != msgs[l]@
                by {
                    if l == msgs.len() - 1 {
                        assert(!contains_msg(pre.filtered_msgs@, m@));
                    }
                }
            }
        },
    }
}

} // verus!
