//! The lifecycle bridge: the state machine that reacts to span-created,
//! span-entered, span-exited, event-occurred and span-destroyed
//! notifications and drives the shared render surface. Labels are computed
//! once at creation; a line exists only while its span is entered; exiting a
//! root span leaves a completion line behind, exiting a nested span leaves
//! no trace.

use std::collections::HashMap;
use std::sync::Arc;

use indicatif::MultiProgress;
use indicatif::ProgressBar;
use indicatif::ProgressStyle;
use vstd::prelude::*;

use crate::label;
use crate::surface;

verus! {

broadcast use vstd::std_specs::hash::group_hash_axioms;

/// `a + n`, saturating at the largest value the tick counter can hold.
pub open spec fn sat_add(a: u64, n: nat) -> u64 {
    if a + n > u64::MAX {
        u64::MAX
    } else {
        (a + n) as u64
    }
}

/// Per-span state: the label computed once at creation, and, while the span
/// is entered, the live line together with whether automatic animation was
/// enabled on it.
struct SpanRecord {
    label: Option<String>,
    bar: Option<ProgressBar>,
    auto: bool,
}

/// The bridge between span lifecycle notifications and the render surface.
/// It owns the configuration, a shared handle to the surface, the per-span
/// state store, the texts of completion lines left behind by root spans,
/// and a count of forced animation frames.
pub struct PbSubscriber {
    progress_style: ProgressStyle,
    description_key: String,
    steady_tick: u64,
    tick_all_spans: bool,
    mp: Arc<MultiProgress>,
    store: HashMap<u64, SpanRecord>,
    done: Vec<String>,
    tick_count: u64,
}

impl PbSubscriber {
    /// The configured description key; empty means span names are used.
    pub closed spec fn key_view(self) -> Seq<char> {
        self.description_key@
    }

    /// The configured automatic tick interval in milliseconds; zero disables
    /// automatic animation.
    pub closed spec fn steady(self) -> u64 {
        self.steady_tick
    }

    /// Whether every event and exit force-ticks all lines in scope.
    pub closed spec fn tick_all(self) -> bool {
        self.tick_all_spans
    }

    /// The stored line style, applied to every line the bridge attaches.
    pub closed spec fn style_view(self) -> ProgressStyle {
        self.progress_style
    }

    /// The shared render-surface handle: one surface for the bridge's whole
    /// lifetime, the same one the keeper task is handed.
    pub closed spec fn surface_handle(self) -> Arc<MultiProgress> {
        self.mp
    }

    /// Whether the bridge holds state for the span.
    pub closed spec fn span_known(self, id: u64) -> bool {
        self.store@.contains_key(id)
    }

    /// The label stored for the span, if any.
    pub closed spec fn span_label(self, id: u64) -> Option<Seq<char>> {
        if self.store@.contains_key(id) {
            match self.store@[id].label {
                Some(l) => Some(l@),
                None => None,
            }
        } else {
            None
        }
    }

    /// Whether the span currently holds a live line on the surface.
    pub closed spec fn span_active(self, id: u64) -> bool {
        self.store@.contains_key(id) && self.store@[id].bar is Some
    }

    /// Whether the span's live line has automatic animation enabled.
    pub closed spec fn span_auto(self, id: u64) -> bool {
        self.store@.contains_key(id) && self.store@[id].auto
    }

    /// The texts of the completion lines left behind by exited root spans,
    /// oldest first.
    pub closed spec fn done_lines(self) -> Seq<Seq<char>> {
        self.done@.map_values(|s: String| s@)
    }

    /// How many animation frames were forced so far, saturating at the
    /// counter's maximum.
    pub closed spec fn forced(self) -> u64 {
        self.tick_count
    }

    /// A live line is only ever attached to a span with a stored label: a
    /// span whose description resolved to the empty string stays inert.
    pub open spec fn wf(self) -> bool {
        forall|id: u64| self.span_active(id) ==> self.span_label(id) is Some
    }

    /// How many of the given spans currently hold a live line.
    pub open spec fn active_count(self, scope: Seq<u64>) -> nat
        decreases scope.len(),
    {
        if scope.len() == 0 {
            0
        } else {
            self.active_count(scope.drop_last()) + (if self.span_active(scope.last()) {
                1nat
            } else {
                0nat
            })
        }
    }

    /// The two bridges carry the same configuration: style, description
    /// key, tick interval and tick-all flag.
    pub open spec fn same_config(self, other: PbSubscriber) -> bool {
        &&& self.style_view() == other.style_view()
        &&& self.key_view() == other.key_view()
        &&& self.steady() == other.steady()
        &&& self.tick_all() == other.tick_all()
    }

    /// The two bridges hold the same state for every span.
    pub open spec fn same_span_states(self, other: PbSubscriber) -> bool {
        forall|j: u64|
            #![auto]
            self.span_known(j) == other.span_known(j) && self.span_label(j) == other.span_label(j)
                && self.span_active(j) == other.span_active(j) && self.span_auto(j)
                == other.span_auto(j)
    }

    /// The two bridges hold the same state for every span but `id`.
    pub open spec fn same_span_states_except(self, other: PbSubscriber, id: u64) -> bool {
        forall|j: u64|
            #![auto]
            j != id ==> self.span_known(j) == other.span_known(j) && self.span_label(j)
                == other.span_label(j) && self.span_active(j) == other.span_active(j)
                && self.span_auto(j) == other.span_auto(j)
    }

    /// Create a bridge with the given line style, designated description key
    /// (empty: use span names) and automatic tick interval in milliseconds
    /// (zero: no automatic animation). Tick-all-spans mode starts disabled.
    pub fn new(progress_style: ProgressStyle, description_key: String, steady_tick: u64) -> (r:
        Self)
        ensures
            r.wf(),
            r.style_view() == progress_style,
            r.key_view() == description_key@,
            r.steady() == steady_tick,
            !r.tick_all(),
            forall|id: u64|
                #![auto]
                !r.span_known(id) && r.span_label(id) is None && !r.span_active(id)
                    && !r.span_auto(id),
            r.done_lines() == Seq::<Seq<char>>::empty(),
            r.forced() == 0,
    {
        let mp = Arc::new(surface::new_surface());
        let r = PbSubscriber {
            progress_style,
            description_key,
            steady_tick,
            tick_all_spans: false,
            mp,
            store: HashMap::new(),
            done: Vec::new(),
            tick_count: 0,
        };
        proof {
            assert(r.done_lines() =~= Seq::<Seq<char>>::empty());
        }
        r
    }

    /// Replace the automatic tick interval (milliseconds; zero disables).
    pub fn with_steady_tick(self, n: u64) -> (r: Self)
        ensures
            r.steady() == n,
            r.style_view() == self.style_view(),
            r.surface_handle() == self.surface_handle(),
            r.key_view() == self.key_view(),
            r.tick_all() == self.tick_all(),
            r.same_span_states(self),
            r.done_lines() == self.done_lines(),
            r.forced() == self.forced(),
            self.wf() ==> r.wf(),
    {
        let PbSubscriber {
            progress_style,
            description_key,
            steady_tick: _,
            tick_all_spans,
            mp,
            store,
            done,
            tick_count,
        } = self;
        let r = PbSubscriber {
            progress_style,
            description_key,
            steady_tick: n,
            tick_all_spans,
            mp,
            store,
            done,
            tick_count,
        };
        proof {
            if self.wf() {
                lemma_wf_congruent(self, r);
            }
        }
        r
    }

    /// Replace the designated description key; labels already computed keep
    /// the key that was configured when their span was created.
    pub fn with_description_key(self, s: String) -> (r: Self)
        ensures
            r.key_view() == s@,
            r.style_view() == self.style_view(),
            r.surface_handle() == self.surface_handle(),
            r.steady() == self.steady(),
            r.tick_all() == self.tick_all(),
            r.same_span_states(self),
            r.done_lines() == self.done_lines(),
            r.forced() == self.forced(),
            self.wf() ==> r.wf(),
    {
        let PbSubscriber {
            progress_style,
            description_key: _,
            steady_tick,
            tick_all_spans,
            mp,
            store,
            done,
            tick_count,
        } = self;
        let r = PbSubscriber {
            progress_style,
            description_key: s,
            steady_tick,
            tick_all_spans,
            mp,
            store,
            done,
            tick_count,
        };
        proof {
            if self.wf() {
                lemma_wf_congruent(self, r);
            }
        }
        r
    }

    /// Enable or disable tick-all-spans mode: when enabled, every event and
    /// every exit forces one animation frame on each line in scope, for
    /// callers that rely on event-driven refresh instead of the steady tick.
    pub fn with_tick_all_spans(self, b: bool) -> (r: Self)
        ensures
            r.tick_all() == b,
            r.style_view() == self.style_view(),
            r.surface_handle() == self.surface_handle(),
            r.key_view() == self.key_view(),
            r.steady() == self.steady(),
            r.same_span_states(self),
            r.done_lines() == self.done_lines(),
            r.forced() == self.forced(),
            self.wf() ==> r.wf(),
    {
        let PbSubscriber {
            progress_style,
            description_key,
            steady_tick,
            tick_all_spans: _,
            mp,
            store,
            done,
            tick_count,
        } = self;
        let r = PbSubscriber {
            progress_style,
            description_key,
            steady_tick,
            tick_all_spans: b,
            mp,
            store,
            done,
            tick_count,
        };
        proof {
            if self.wf() {
                lemma_wf_congruent(self, r);
            }
        }
        r
    }

    /// React to a span being created: compute its label once and store it.
    /// Nothing is rendered yet; a span created but never entered costs no
    /// rendering. A span whose description resolves to the empty string
    /// gets no state at all and stays inert for good.
    pub fn on_new_span(
        &mut self,
        id: u64,
        name: &String,
        attrs: &Vec<(String, String)>,
        depth: usize,
    )
        requires
            old(self).wf(),
        ensures
            final(self).wf(),
            final(self).same_config(*old(self)),
            final(self).surface_handle() == old(self).surface_handle(),
            final(self).same_span_states_except(*old(self), id),
            final(self).done_lines() == old(self).done_lines(),
            final(self).forced() == old(self).forced(),
            ({
                let l = label::label_of(
                    old(self).key_view(),
                    name@,
                    label::pairs_view(attrs@),
                    depth as nat,
                );
                match l {
                    Some(s) => final(self).span_known(id) && final(self).span_label(id) == Some(s)
                        && !final(self).span_active(id) && !final(self).span_auto(id),
                    None => final(self).span_known(id) == old(self).span_known(id) && final(self).span_label(id)
                        == old(self).span_label(id) && final(self).span_active(id) == old(self).span_active(id) && final(self).span_auto(id) == old(self).span_auto(id)
                        && (!old(self).span_known(id) ==> final(self).span_label(id) is None
                            && !final(self).span_active(id)),
                }
            }),
    {
        let l = label::make_label(&self.description_key, name, attrs, depth);
        if let Some(s) = l {
            self.store.insert(id, SpanRecord { label: Some(s), bar: None, auto: false });
        }
        proof {
            assert forall|j: u64| self.span_active(j) implies self.span_label(j) is Some by {
                assert(old(self).span_active(j) ==> old(self).span_label(j) is Some);
            }
        }
    }

    /// React to a span being entered: when a label is stored and no line is
    /// attached, attach a fresh styled line showing the label and, when the
    /// configured interval is non-zero, start its automatic animation.
    /// Without a stored label this is a no-op. Re-entering a span that
    /// still holds a line keeps that line rather than leaking it.
    pub fn on_enter(&mut self, id: u64)
        requires
            old(self).wf(),
        ensures
            final(self).wf(),
            final(self).same_config(*old(self)),
            final(self).surface_handle() == old(self).surface_handle(),
            final(self).same_span_states_except(*old(self), id),
            final(self).done_lines() == old(self).done_lines(),
            final(self).forced() == old(self).forced(),
            if old(self).span_label(id) is Some && !old(self).span_active(id) {
                final(self).span_known(id) && final(self).span_label(id) == old(self).span_label(id)
                    && final(self).span_active(id) && final(self).span_auto(id) == (old(self).steady() > 0)
            } else {
                final(self).span_known(id) == old(self).span_known(id) && final(self).span_label(id) == old(self).span_label(id) && final(self).span_active(id) == old(self).span_active(id)
                    && final(self).span_auto(id) == old(self).span_auto(id)
            },
    {
        let mut lbl: Option<String> = None;
        match self.store.get(&id) {
            Some(rec) => {
                if rec.bar.is_none() {
                    match &rec.label {
                        Some(l) => {
                            lbl = Some(l.clone());
                        },
                        None => {},
                    }
                }
            },
            None => {},
        }
        if let Some(l) = lbl {
            let bar = surface::surface_add(&self.mp, surface::new_spinner());
            surface::bar_set_style(&bar, &self.progress_style);
            surface::bar_set_message(&bar, &l);
            let auto = self.steady_tick > 0;
            if auto {
                surface::bar_enable_steady_tick(&bar, self.steady_tick);
            }
            self.store.insert(id, SpanRecord { label: Some(l), bar: Some(bar), auto });
        }
        proof {
            assert forall|j: u64| self.span_active(j) implies self.span_label(j) is Some by {
                assert(old(self).span_active(j) ==> old(self).span_label(j) is Some);
            }
        }
    }

    /// React to a span being exited: detach its line, stop the line's
    /// automatic animation, and retire it — erased without trace for a
    /// nested span, left behind reading the label followed by " done!" for
    /// a root span. The label stays stored, so a later re-entry gets a
    /// fresh, independent line. Afterwards, in tick-all-spans mode, force
    /// one animation frame on every line still attached to a span in scope.
    pub fn on_exit(&mut self, id: u64, depth: usize, scope: &Vec<u64>)
        requires
            old(self).wf(),
        ensures
            final(self).wf(),
            final(self).same_config(*old(self)),
            final(self).surface_handle() == old(self).surface_handle(),
            final(self).same_span_states_except(*old(self), id),
            if old(self).span_label(id) is Some && old(self).span_active(id) {
                final(self).span_known(id) && final(self).span_label(id) == old(self).span_label(id)
                    && !final(self).span_active(id) && !final(self).span_auto(id) && if depth == 0 {
                    final(self).done_lines() == old(self).done_lines().push(
                        old(self).span_label(id)->Some_0 + " done!"@,
                    )
                } else {
                    final(self).done_lines() == old(self).done_lines()
                }
            } else {
                final(self).span_known(id) == old(self).span_known(id) && final(self).span_label(id) == old(self).span_label(id) && final(self).span_active(id) == old(self).span_active(id)
                    && final(self).span_auto(id) == old(self).span_auto(id) && final(self).done_lines() == old(self).done_lines()
            },
            final(self).forced() == if old(self).tick_all() {
                sat_add(old(self).forced(), final(self).active_count(scope@))
            } else {
                old(self).forced()
            },
    {
        let mut finishable = false;
        match self.store.get(&id) {
            Some(rec) => {
                finishable = rec.label.is_some() && rec.bar.is_some();
            },
            None => {},
        }
        if finishable {
            let rec = self.store.remove(&id).unwrap();
            let l = rec.label.unwrap();
            let bar = rec.bar.unwrap();
            surface::bar_disable_steady_tick(&bar);
            if depth > 0 {
                surface::bar_finish_and_clear(bar);
            } else {
                let msg = l.clone().concat(" done!");
                surface::bar_finish_with_message(bar, &msg);
                let ghost prev = self.done@;
                self.done.push(msg);
                proof {
                    assert(self.done_lines() =~= prev.map_values(|s: String| s@).push(msg@));
                }
            }
            self.store.insert(id, SpanRecord { label: Some(l), bar: None, auto: false });
        }
        let ghost mid = *self;
        if self.tick_all_spans {
            self.force_tick_scope(scope);
        }
        proof {
            lemma_active_count_congruent(mid, *self, scope@);
            assert forall|j: u64| self.span_active(j) implies self.span_label(j) is Some by {
                assert(old(self).span_active(j) ==> old(self).span_label(j) is Some);
            }
        }
    }

    /// React to a point-in-time event: in tick-all-spans mode force one
    /// animation frame on every line attached to a span in scope; otherwise
    /// do nothing.
    pub fn on_event(&mut self, scope: &Vec<u64>)
        requires
            old(self).wf(),
        ensures
            final(self).wf(),
            final(self).same_config(*old(self)),
            final(self).surface_handle() == old(self).surface_handle(),
            final(self).same_span_states(*old(self)),
            final(self).done_lines() == old(self).done_lines(),
            final(self).forced() == if old(self).tick_all() {
                sat_add(old(self).forced(), old(self).active_count(scope@))
            } else {
                old(self).forced()
            },
    {
        if self.tick_all_spans {
            self.force_tick_scope(scope);
        }
        proof {
            assert forall|j: u64| self.span_active(j) implies self.span_label(j) is Some by {
                assert(old(self).span_active(j) ==> old(self).span_label(j) is Some);
            }
        }
    }

    /// React to the span being destroyed by the notification source: drop
    /// all stored state for it. A line still attached — a span destroyed
    /// while entered — is stopped and erased without trace.
    pub fn on_close(&mut self, id: u64)
        requires
            old(self).wf(),
        ensures
            final(self).wf(),
            final(self).same_config(*old(self)),
            final(self).surface_handle() == old(self).surface_handle(),
            final(self).same_span_states_except(*old(self), id),
            !final(self).span_known(id),
            final(self).span_label(id) is None,
            !final(self).span_active(id),
            !final(self).span_auto(id),
            final(self).done_lines() == old(self).done_lines(),
            final(self).forced() == old(self).forced(),
    {
        match self.store.remove(&id) {
            Some(rec) => {
                match rec.bar {
                    Some(bar) => {
                        surface::bar_disable_steady_tick(&bar);
                        surface::bar_finish_and_clear(bar);
                    },
                    None => {},
                }
            },
            None => {},
        }
        proof {
            assert forall|j: u64| self.span_active(j) implies self.span_label(j) is Some by {
                assert(old(self).span_active(j) ==> old(self).span_label(j) is Some);
            }
        }
    }

    /// Force one animation frame on every line attached to a span in scope,
    /// counting each forced frame.
    fn force_tick_scope(&mut self, scope: &Vec<u64>)
        ensures
            final(self).store == old(self).store,
            final(self).done == old(self).done,
            final(self).description_key == old(self).description_key,
            final(self).steady_tick == old(self).steady_tick,
            final(self).tick_all_spans == old(self).tick_all_spans,
            final(self).progress_style == old(self).progress_style,
            final(self).mp == old(self).mp,
            final(self).tick_count == sat_add(old(self).tick_count, old(self).active_count(scope@)),
    {
        let mut i: usize = 0;
        while i < scope.len()
            invariant
                i <= scope.len(),
                self.store == old(self).store,
                self.done == old(self).done,
                self.description_key == old(self).description_key,
                self.steady_tick == old(self).steady_tick,
                self.tick_all_spans == old(self).tick_all_spans,
                self.progress_style == old(self).progress_style,
                self.mp == old(self).mp,
                self.tick_count == sat_add(
                    old(self).tick_count,
                    old(self).active_count(scope@.take(i as int)),
                ),
            decreases scope.len() - i,
        {
            let sid = scope[i];
            let mut ticked = false;
            match self.store.get(&sid) {
                Some(rec) => {
                    match &rec.bar {
                        Some(bar) => {
                            surface::bar_tick(bar);
                            ticked = true;
                        },
                        None => {},
                    }
                },
                None => {},
            }
            proof {
                assert(scope@.take(i + 1).drop_last() =~= scope@.take(i as int));
                assert(scope@.take(i + 1).last() == scope@[i as int]);
            }
            if ticked {
                if self.tick_count < u64::MAX {
                    self.tick_count = self.tick_count + 1;
                }
            }
            i = i + 1;
        }
        proof {
            assert(scope@.take(scope@.len() as int) =~= scope@);
        }
    }

    /// The configured description key.
    pub fn configured_key(&self) -> (r: &String)
        ensures
            r@ == self.key_view(),
    {
        &self.description_key
    }

    /// The configured automatic tick interval in milliseconds.
    pub fn steady_tick_ms(&self) -> (r: u64)
        ensures
            r == self.steady(),
    {
        self.steady_tick
    }

    /// Whether tick-all-spans mode is enabled.
    pub fn ticks_all(&self) -> (r: bool)
        ensures
            r == self.tick_all(),
    {
        self.tick_all_spans
    }

    /// Whether the span currently holds a live line.
    pub fn is_active(&self, id: u64) -> (r: bool)
        ensures
            r == self.span_active(id),
    {
        match self.store.get(&id) {
            Some(rec) => rec.bar.is_some(),
            None => false,
        }
    }

    /// Whether the span's live line has automatic animation enabled.
    pub fn is_auto_ticking(&self, id: u64) -> (r: bool)
        ensures
            r == self.span_auto(id),
    {
        match self.store.get(&id) {
            Some(rec) => rec.auto,
            None => false,
        }
    }

    /// The label stored for the span, if any.
    pub fn label_text(&self, id: u64) -> (r: Option<String>)
        ensures
            match r {
                Some(s) => self.span_label(id) == Some(s@),
                None => self.span_label(id) is None,
            },
    {
        match self.store.get(&id) {
            Some(rec) => match &rec.label {
                Some(l) => Some(l.clone()),
                None => None,
            },
            None => None,
        }
    }

    /// How many animation frames were forced so far.
    pub fn forced_tick_count(&self) -> (r: u64)
        ensures
            r == self.forced(),
    {
        self.tick_count
    }

    /// The completion lines left behind by exited root spans, oldest first.
    pub fn done_messages(&self) -> (r: &Vec<String>)
        ensures
            r@.map_values(|s: String| s@) == self.done_lines(),
    {
        &self.done
    }

    /// Another handle to the shared render surface — the same surface every
    /// line is attached to — for a keeper task that parks in the surface's
    /// draw loop until every line is gone.
    pub fn surface(&self) -> (r: Arc<MultiProgress>)
        ensures
            r == self.surface_handle(),
    {
        surface::share_surface(&self.mp)
    }
}

impl Default for PbSubscriber {
    /// The default bridge: the stock spinner style, span names as
    /// descriptions, and an automatic tick every 120 milliseconds.
    fn default() -> (r: Self)
        ensures
            r.wf(),
            r.key_view() == Seq::<char>::empty(),
            r.steady() == 120,
            !r.tick_all(),
            forall|id: u64| #![auto] !r.span_known(id),
            r.done_lines() == Seq::<Seq<char>>::empty(),
            r.forced() == 0,
    {
        Self::new(default_style(), String::new(), 120)
    }
}

/// The stock spinner style: a small arrow animation and a template that
/// shows the spinner in blue beside the message.
pub fn default_style() -> ProgressStyle {
    let mut frames: Vec<String> = Vec::new();
    frames.push("▹▹▹▹▹".to_owned());
    frames.push("▸▹▹▹▹".to_owned());
    frames.push("▹▸▹▹▹".to_owned());
    frames.push("▹▹▸▹▹".to_owned());
    frames.push("▹▹▹▸▹".to_owned());
    frames.push("▹▹▹▹▸".to_owned());
    frames.push("▪▪▪▪▪".to_owned());
    surface::make_spinner_style(&frames, "{spinner:.blue} {msg}")
}

// Accessor congruence: two bridges over the same store agree on every
// per-span observation, so well-formedness carries over.
proof fn lemma_wf_congruent(a: PbSubscriber, b: PbSubscriber)
    requires
        a.store == b.store,
        a.wf(),
    ensures
        b.wf(),
{
    assert forall|j: u64| b.span_active(j) implies b.span_label(j) is Some by {
        assert(a.span_active(j) ==> a.span_label(j) is Some);
    }
}

// Accessor congruence: two bridges over the same store agree on every
// per-span observation, hence on the active count of any scope.
proof fn lemma_active_count_congruent(a: PbSubscriber, b: PbSubscriber, scope: Seq<u64>)
    requires
        a.store == b.store,
    ensures
        a.active_count(scope) == b.active_count(scope),
    decreases scope.len(),
{
    if scope.len() > 0 {
        lemma_active_count_congruent(a, b, scope.drop_last());
    }
}

/// A span with no stored label never holds a live line, however often it is
/// entered.
pub proof fn lemma_inert_span_stays_blank(s: PbSubscriber, id: u64)
    requires
        s.wf(),
        s.span_label(id) is None,
    ensures
        !s.span_active(id),
{
}

} // verus!
