//! The dashboard state and its single mutating entry point. One `App` value
//! owns every list, signal window, the tab cycle and the filter set; it is
//! mutated only through `advance`, called from one thread, so the renderer
//! always sees a consistent snapshot. Events arrive already merged: a tick
//! carries the clock reading, the fresh signal points and the records
//! drained from the results channel; an input event carries one key.

use crate::list::{insert_rec, no_dup_recs, rec_seq_contains, SelectableList};
use crate::mux::Key;
use crate::record::{RecordView, ThwDatum};
use crate::sched::RefreshScheduler;
use crate::signal::{tick_window, Signal};
use crate::tabs::TabCycle;
use vstd::prelude::*;

verus! {

/// Whether `forum` is one of the filtered forum names.
pub open spec fn in_filter_set(filters: Seq<String>, forum: Seq<char>) -> bool {
    exists|i: int| 0 <= i < filters.len() && filters[i]@ == forum
}

/// The task list after one incoming record: a record from a filtered forum
/// is dropped, anything else goes through the dedup insert.
pub open spec fn admit_rec(
    tasks: Seq<RecordView>,
    filters: Seq<String>,
    r: RecordView,
) -> Seq<RecordView> {
    if in_filter_set(filters, r.forum) {
        tasks
    } else {
        insert_rec(tasks, r)
    }
}

/// The task list after draining a whole batch of records, in arrival order.
pub open spec fn drain_records(
    tasks: Seq<RecordView>,
    filters: Seq<String>,
    batch: Seq<RecordView>,
) -> Seq<RecordView>
    decreases batch.len(),
{
    if batch.len() == 0 {
        tasks
    } else {
        drain_records(admit_rec(tasks, filters, batch[0]), filters, batch.skip(1))
    }
}

/// No entry of `tasks` comes from a filtered forum.
pub open spec fn all_unfiltered(tasks: Seq<RecordView>, filters: Seq<String>) -> bool {
    forall|i: int| 0 <= i < tasks.len() ==> !in_filter_set(filters, #[trigger] tasks[i].forum)
}

/// Everything one tick event carries into the dashboard: the monotonic
/// clock reading in milliseconds, the freshest sparkline points, and the
/// records available on the results channel without blocking.
pub struct TickData {
    pub now_ms: u64,
    pub fresh: Vec<u64>,
    pub results: Vec<ThwDatum>,
}

/// One event of the merged stream together with the data it carries.
pub enum AppEvent {
    Tick(TickData),
    Input(Key),
}

/// What the caller must perform after an `advance`: send a refresh request
/// to the fetch worker, and/or hand a URL to the clipboard collaborator.
pub struct Effects {
    pub fire_refresh: bool,
    pub copy_request: Option<String>,
}

/// The dashboard state. Single writer: only `advance` (and the handlers it
/// dispatches to) mutates it.
pub struct App {
    pub title: String,
    pub should_quit: bool,
    pub tabs: TabCycle,
    pub show_chart: bool,
    pub scheduler: RefreshScheduler,
    pub sparkline: Signal<u64>,
    pub tasks: SelectableList<ThwDatum>,
    pub logs: SelectableList<(String, String)>,
    pub enhanced_graphics: bool,
    pub errors: Vec<String>,
    pub filters: Vec<String>,
}

impl App {
    /// Well-formed: every component is, the task list holds no duplicate
    /// and no filtered record.
    pub open spec fn wf(self) -> bool {
        &&& self.tabs.wf()
        &&& self.scheduler.wf()
        &&& self.sparkline.wf()
        &&& self.tasks.wf()
        &&& self.logs.wf()
        &&& no_dup_recs(self.tasks.items.deep_view())
        &&& all_unfiltered(self.tasks.items.deep_view(), self.filters@)
    }

    /// The full URL of the currently selected record, if one is selected.
    pub open spec fn uri_view(self) -> Option<Seq<char>> {
        match self.tasks.cursor_view() {
            Option::None => Option::None,
            Option::Some(i) => Option::Some(
                "https://www.hiveworkshop.com/"@ + self.tasks.items.deep_view()[i].href,
            ),
        }
    }

    /// A fresh dashboard: two tabs, the fixed filter set, an empty task
    /// list, a 60 s refresh interval starting at `now_ms`, and a sparkline
    /// window advancing one point per tick.
    pub fn new(
        title: String,
        enhanced_graphics: bool,
        now_ms: u64,
        sparkline_points: Vec<u64>,
    ) -> (app: App)
        requires
            now_ms + 60000 <= u64::MAX,
            sparkline_points@.len() >= 1,
        ensures
            app.wf(),
            app.title == title,
            !app.should_quit,
            app.show_chart,
            app.enhanced_graphics == enhanced_graphics,
            app.tabs.index == 0,
            app.tabs.titles@.len() == 2,
            app.tabs.titles@[0]@ == "New posts"@,
            app.tabs.titles@[1]@ == "Filters"@,
            app.scheduler.period_ms == 60000,
            app.scheduler.deadline_ms == now_ms + 60000,
            app.sparkline.points == sparkline_points,
            app.sparkline.tick_rate == 1,
            app.tasks.items@.len() == 0,
            app.tasks.cursor is None,
            app.logs.items@.len() == 0,
            app.errors@.len() == 0,
            app.filters@.len() == 6,
            app.filters@[0]@ == "Maps"@,
            app.filters@[1]@ == "Models"@,
            app.filters@[2]@ == "Site Discussion"@,
            app.filters@[3]@ == "Multiplayer LFG"@,
            app.filters@[4]@ == "Skins"@,
            app.filters@[5]@ == "Something Else"@,
    {
        let mut titles: Vec<String> = Vec::new();
        titles.push("New posts".to_owned());
        titles.push("Filters".to_owned());
        let mut filters: Vec<String> = Vec::new();
        filters.push("Maps".to_owned());
        filters.push("Models".to_owned());
        filters.push("Site Discussion".to_owned());
        filters.push("Multiplayer LFG".to_owned());
        filters.push("Skins".to_owned());
        filters.push("Something Else".to_owned());
        App {
            title,
            should_quit: false,
            tabs: TabCycle::new(titles),
            show_chart: true,
            scheduler: RefreshScheduler::new(now_ms, 60000),
            sparkline: Signal::new(sparkline_points, 1),
            tasks: SelectableList::new(),
            logs: SelectableList::new(),
            enhanced_graphics,
            errors: Vec::new(),
            filters,
        }
    }

    /// Move the task cursor up (to the preceding entry, wrapping).
    pub fn on_up(&mut self)
        requires
            old(self).wf(),
        ensures
            final(self).wf(),
            final(self).tasks.items == old(self).tasks.items,
            final(self).tasks.cursor_view() == crate::list::prev_cursor(
                old(self).tasks.cursor_view(),
                old(self).tasks.items@.len() as int,
            ),
            *final(self) == (App { tasks: final(self).tasks, ..*old(self) }),
    {
        self.tasks.previous();
    }

    /// Move the task cursor down (to the following entry, wrapping).
    pub fn on_down(&mut self)
        requires
            old(self).wf(),
        ensures
            final(self).wf(),
            final(self).tasks.items == old(self).tasks.items,
            final(self).tasks.cursor_view() == crate::list::next_cursor(
                old(self).tasks.cursor_view(),
                old(self).tasks.items@.len() as int,
            ),
            *final(self) == (App { tasks: final(self).tasks, ..*old(self) }),
    {
        self.tasks.next();
    }

    /// Switch to the following tab.
    pub fn on_right(&mut self)
        requires
            old(self).wf(),
        ensures
            final(self).wf(),
            final(self).tabs.titles == old(self).tabs.titles,
            final(self).tabs.index == old(self).tabs.next_index(),
            *final(self) == (App { tabs: final(self).tabs, ..*old(self) }),
    {
        self.tabs.next();
    }

    /// Switch to the preceding tab.
    pub fn on_left(&mut self)
        requires
            old(self).wf(),
        ensures
            final(self).wf(),
            final(self).tabs.titles == old(self).tabs.titles,
            final(self).tabs.index == old(self).tabs.prev_index(),
            *final(self) == (App { tabs: final(self).tabs, ..*old(self) }),
    {
        self.tabs.previous();
    }

    /// The full URL of the selected record: the site prefix followed by the
    /// record's relative link. `None` exactly when nothing is selected.
    pub fn get_uri(&self) -> (r: Option<String>)
        requires
            self.wf(),
        ensures
            match (r, self.uri_view()) {
                (Option::None, Option::None) => true,
                (Option::Some(s), Option::Some(v)) => s@ == v,
                _ => false,
            },
    {
        match self.tasks.selected() {
            None => None,
            Some(idx) => {
                let base = "https://www.hiveworkshop.com/".to_owned();
                Some(base.concat(self.tasks.items[idx].href.as_str()))
            },
        }
    }

    /// Record a failure of the clipboard collaborator: the message is
    /// appended to the error list that the renderer shows in place of the
    /// normal footer.
    pub fn on_copy_error(&mut self, msg: String)
        requires
            old(self).wf(),
        ensures
            final(self).wf(),
            final(self).errors@ == old(self).errors@.push(msg),
            *final(self) == (App { errors: final(self).errors, ..*old(self) }),
    {
        self.errors.push(msg);
    }

    /// Handle one character key: `q` asks the main loop to quit, `t`
    /// toggles the chart, `c` requests that the selected record's URL be
    /// copied (returned for the caller to hand to the clipboard
    /// collaborator), anything else is ignored.
    pub fn on_key(&mut self, c: char) -> (copy: Option<String>)
        requires
            old(self).wf(),
        ensures
            final(self).wf(),
            c == 'q' ==> *final(self) == (App { should_quit: true, ..*old(self) }) && copy
                is None,
            c == 't' ==> *final(self) == (App {
                show_chart: !old(self).show_chart,
                ..*old(self)
            }) && copy is None,
            c == 'c' ==> *final(self) == *old(self) && (match (copy, old(self).uri_view()) {
                (Option::None, Option::None) => true,
                (Option::Some(s), Option::Some(v)) => s@ == v,
                _ => false,
            }),
            c != 'q' && c != 't' && c != 'c' ==> *final(self) == *old(self) && copy is None,
    {
        if c == 'q' {
            self.should_quit = true;
            None
        } else if c == 't' {
            self.show_chart = !self.show_chart;
            None
        } else if c == 'c' {
            self.get_uri()
        } else {
            None
        }
    }

    /// Whether `forum` is a member of the filter set.
    pub fn forum_filtered(&self, forum: &String) -> (r: bool)
        ensures
            r == in_filter_set(self.filters@, forum@),
    {
        let n = self.filters.len();
        let mut j: usize = 0;
        let mut found = false;
        while j < n
            invariant
                j <= n,
                n == self.filters@.len(),
                found <==> exists|i: int| 0 <= i < j && self.filters@[i]@ == forum@,
            decreases n - j,
        {
            if self.filters[j].eq(forum) {
                proof {
                    assert(self.filters@[j as int]@ == forum@);
                }
                found = true;
            }
            j = j + 1;
        }
        found
    }

    /// Merge one incoming record into the task list: dropped if its forum
    /// is filtered, dropped if a structurally equal record is already
    /// present, otherwise inserted at the front.
    pub fn admit_record(&mut self, r: ThwDatum)
        requires
            old(self).wf(),
        ensures
            final(self).wf(),
            final(self).tasks.items.deep_view() == admit_rec(
                old(self).tasks.items.deep_view(),
                old(self).filters@,
                r@,
            ),
            final(self).tasks.cursor == old(self).tasks.cursor,
            *final(self) == (App { tasks: final(self).tasks, ..*old(self) }),
    {
        proof {
            lemma_admit_keeps_invariants(self.tasks.items.deep_view(), self.filters@, r@);
        }
        if !self.forum_filtered(&r.forum) {
            self.tasks.insert(r);
        }
    }

    /// One tick of the dashboard: slide the sparkline window by one batch
    /// of fresh points, advance the refresh scheduler (reporting whether a
    /// refresh fires), and drain the records that arrived since the last
    /// tick into the task list.
    pub fn on_tick(&mut self, now_ms: u64, fresh: Vec<u64>, results: Vec<ThwDatum>) -> (fire:
        bool)
        requires
            old(self).wf(),
            fresh@.len() == old(self).sparkline.tick_rate,
            now_ms + old(self).scheduler.period_ms <= u64::MAX,
        ensures
            final(self).wf(),
            fire == old(self).scheduler.due(now_ms as int),
            final(self).scheduler.period_ms == old(self).scheduler.period_ms,
            fire ==> final(self).scheduler.deadline_ms == now_ms + old(self).scheduler.period_ms
                && final(self).scheduler.elapsed_spec(now_ms as int) == 0,
            !fire ==> final(self).scheduler == old(self).scheduler,
            final(self).tasks.items.deep_view() == drain_records(
                old(self).tasks.items.deep_view(),
                old(self).filters@,
                results.deep_view(),
            ),
            final(self).tasks.cursor == old(self).tasks.cursor,
            final(self).sparkline.tick_rate == old(self).sparkline.tick_rate,
            final(self).sparkline.points@ == tick_window(old(self).sparkline.points@, fresh@),
            *final(self) == (App {
                scheduler: final(self).scheduler,
                tasks: final(self).tasks,
                sparkline: final(self).sparkline,
                ..*old(self)
            }),
    {
        self.sparkline.on_tick(fresh);
        let fire = self.scheduler.on_tick(now_ms);
        let ghost app1 = *self;
        let ghost tasks0 = self.tasks.items.deep_view();
        let ghost batch0 = results.deep_view();
        let mut results = results;
        while results.len() > 0
            invariant
                self.wf(),
                drain_records(self.tasks.items.deep_view(), self.filters@, results.deep_view())
                    == drain_records(tasks0, app1.filters@, batch0),
                self.tasks.cursor == app1.tasks.cursor,
                *self == (App { tasks: self.tasks, ..app1 }),
            decreases results@.len(),
        {
            let ghost pre = results.deep_view();
            let r = results.remove(0);
            proof {
                assert(results.deep_view() =~= pre.skip(1));
                assert(r@ == pre[0]);
            }
            self.admit_record(r);
        }
        fire
    }

    /// The single mutating entry point: apply one event of the merged
    /// stream and report what the caller must do in turn.
    pub fn advance(&mut self, event: AppEvent) -> (eff: Effects)
        requires
            old(self).wf(),
            event matches AppEvent::Tick(td) ==> td.fresh@.len() == old(self).sparkline.tick_rate
                && td.now_ms + old(self).scheduler.period_ms <= u64::MAX,
        ensures
            final(self).wf(),
            match event {
                AppEvent::Tick(td) => {
                    &&& eff.copy_request is None
                    &&& eff.fire_refresh == old(self).scheduler.due(td.now_ms as int)
                    &&& final(self).scheduler.period_ms == old(self).scheduler.period_ms
                    &&& eff.fire_refresh ==> final(self).scheduler.deadline_ms == td.now_ms
                        + old(self).scheduler.period_ms && final(self).scheduler.elapsed_spec(
                        td.now_ms as int,
                    ) == 0
                    &&& !eff.fire_refresh ==> final(self).scheduler == old(self).scheduler
                    &&& final(self).tasks.items.deep_view() == drain_records(
                        old(self).tasks.items.deep_view(),
                        old(self).filters@,
                        td.results.deep_view(),
                    )
                    &&& final(self).tasks.cursor == old(self).tasks.cursor
                    &&& final(self).sparkline.points@ == tick_window(
                        old(self).sparkline.points@,
                        td.fresh@,
                    )
                    &&& final(self).sparkline.tick_rate == old(self).sparkline.tick_rate
                    &&& *final(self) == (App {
                        scheduler: final(self).scheduler,
                        tasks: final(self).tasks,
                        sparkline: final(self).sparkline,
                        ..*old(self)
                    })
                },
                AppEvent::Input(k) => {
                    &&& !eff.fire_refresh
                    &&& match k {
                        Key::Char(c) => {
                            &&& c == 'q' ==> *final(self) == (App {
                                should_quit: true,
                                ..*old(self)
                            }) && eff.copy_request is None
                            &&& c == 't' ==> *final(self) == (App {
                                show_chart: !old(self).show_chart,
                                ..*old(self)
                            }) && eff.copy_request is None
                            &&& c == 'c' ==> *final(self) == *old(self) && (match (
                                eff.copy_request,
                                old(self).uri_view(),
                            ) {
                                (Option::None, Option::None) => true,
                                (Option::Some(s), Option::Some(v)) => s@ == v,
                                _ => false,
                            })
                            &&& c != 'q' && c != 't' && c != 'c' ==> *final(self) == *old(self)
                                && eff.copy_request is None
                        },
                        Key::Up => eff.copy_request is None && final(self).tasks.items == old(
                            self,
                        ).tasks.items && final(self).tasks.cursor_view() == crate::list::prev_cursor(
                            old(self).tasks.cursor_view(),
                            old(self).tasks.items@.len() as int,
                        ) && *final(self) == (App { tasks: final(self).tasks, ..*old(self) }),
                        Key::Down => eff.copy_request is None && final(self).tasks.items == old(
                            self,
                        ).tasks.items && final(self).tasks.cursor_view() == crate::list::next_cursor(
                            old(self).tasks.cursor_view(),
                            old(self).tasks.items@.len() as int,
                        ) && *final(self) == (App { tasks: final(self).tasks, ..*old(self) }),
                        Key::Left => eff.copy_request is None && final(self).tabs.index == old(
                            self,
                        ).tabs.prev_index() && final(self).tabs.titles == old(self).tabs.titles
                            && *final(self) == (App { tabs: final(self).tabs, ..*old(self) }),
                        Key::Right => eff.copy_request is None && final(self).tabs.index == old(
                            self,
                        ).tabs.next_index() && final(self).tabs.titles == old(self).tabs.titles
                            && *final(self) == (App { tabs: final(self).tabs, ..*old(self) }),
                        Key::Other => *final(self) == *old(self) && eff.copy_request is None,
                    }
                },
            },
    {
        match event {
            AppEvent::Tick(td) => {
                let fire = self.on_tick(td.now_ms, td.fresh, td.results);
                Effects { fire_refresh: fire, copy_request: None }
            },
            AppEvent::Input(k) => {
                let copy = match k {
                    Key::Char(c) => self.on_key(c),
                    Key::Up => {
                        self.on_up();
                        None
                    },
                    Key::Down => {
                        self.on_down();
                        None
                    },
                    Key::Left => {
                        self.on_left();
                        None
                    },
                    Key::Right => {
                        self.on_right();
                        None
                    },
                    Key::Other => None,
                };
                Effects { fire_refresh: false, copy_request: copy }
            },
        }
    }
}

/// Admitting one record keeps the task-list invariants: entries stay
/// pairwise distinct and no filtered record appears.
pub proof fn lemma_admit_keeps_invariants(
    tasks: Seq<RecordView>,
    filters: Seq<String>,
    r: RecordView,
)
    requires
        no_dup_recs(tasks),
        all_unfiltered(tasks, filters),
    ensures
        no_dup_recs(admit_rec(tasks, filters, r)),
        all_unfiltered(admit_rec(tasks, filters, r), filters),
{
    if !in_filter_set(filters, r.forum) {
        crate::list::lemma_insert_no_dups(tasks, r);
        if !rec_seq_contains(tasks, r) {
            let t = seq![r] + tasks;
            assert forall|i: int| 0 <= i < t.len() implies !in_filter_set(
                filters,
                t[i].forum,
            ) by {
                if i > 0 {
                    assert(t[i] == tasks[i - 1]);
                }
            }
        }
    }
}

/// A record present in a task list that admits no filtered record cannot be
/// from a filtered forum: membership implies its forum is unfiltered.
pub proof fn lemma_member_is_unfiltered(tasks: Seq<RecordView>, filters: Seq<String>, r: RecordView)
    requires
        all_unfiltered(tasks, filters),
        rec_seq_contains(tasks, r),
    ensures
        !in_filter_set(filters, r.forum),
{
    let i = choose|i: int| 0 <= i < tasks.len() && tasks[i] == r;
    assert(!in_filter_set(filters, tasks[i].forum));
}

/// However a batch of records is drained, a record from a filtered forum is
/// never present in the task list afterwards, and entries stay pairwise
/// distinct.
pub proof fn lemma_filtered_never_present(
    tasks: Seq<RecordView>,
    filters: Seq<String>,
    batch: Seq<RecordView>,
)
    requires
        no_dup_recs(tasks),
        all_unfiltered(tasks, filters),
    ensures
        no_dup_recs(drain_records(tasks, filters, batch)),
        all_unfiltered(drain_records(tasks, filters, batch), filters),
    decreases batch.len(),
{
    if batch.len() > 0 {
        lemma_admit_keeps_invariants(tasks, filters, batch[0]);
        lemma_filtered_never_present(admit_rec(tasks, filters, batch[0]), filters, batch.skip(1));
    }
}

} // verus!
