//! Live filesystem watch.
//!
//! The surrounding process owns the OS-level recursive subscription and a
//! FIFO relay between the notification callback and one delivery thread.
//! This module holds every decision of that pipeline: how a raw
//! notification becomes a normalized [`ChangeEvent`], which notifications
//! are delivered at all (only those that name at least one path), and the
//! state of a subscription — active until the sink first rejects an
//! event, stopped for good after that.

use vstd::prelude::*;

verus! {

/// The category of a filesystem operation, as the watch reports it.
#[derive(Debug, Clone, Copy, PartialEq, Eq, Structural)]
pub enum ChangeKind {
    Create,
    Modify,
    Remove,
    Rename,
    Other,
}

/// The string tag of a category.
pub open spec fn kind_label_spec(k: ChangeKind) -> Seq<char> {
    match k {
        ChangeKind::Create => "create"@,
        ChangeKind::Modify => "modify"@,
        ChangeKind::Remove => "remove"@,
        ChangeKind::Rename => "rename"@,
        ChangeKind::Other => "other"@,
    }
}

/// Whether `s` is the string tag of some category.
pub open spec fn is_kind_label(s: Seq<char>) -> bool {
    ||| s == "create"@
    ||| s == "modify"@
    ||| s == "remove"@
    ||| s == "rename"@
    ||| s == "other"@
}

/// The string tag of a category, executable form.
pub fn kind_label(k: ChangeKind) -> (r: String)
    ensures
        r@ == kind_label_spec(k),
{
    match k {
        ChangeKind::Create => "create".to_owned(),
        ChangeKind::Modify => "modify".to_owned(),
        ChangeKind::Remove => "remove".to_owned(),
        ChangeKind::Rename => "rename".to_owned(),
        ChangeKind::Other => "other".to_owned(),
    }
}

/// One raw filesystem notification, as plain values: its category and
/// the paths it names (possibly none).
#[derive(Debug)]
pub struct RawEvent {
    pub kind: ChangeKind,
    pub paths: Vec<String>,
}

/// Mathematical value of a [`RawEvent`].
#[verifier::ext_equal]
pub ghost struct RawEventModel {
    pub kind: ChangeKind,
    pub paths: Seq<Seq<char>>,
}

impl View for RawEvent {
    type V = RawEventModel;

    open spec fn view(&self) -> RawEventModel {
        RawEventModel { kind: self.kind, paths: paths_model(self.paths@) }
    }
}

/// A normalized change notification as delivered to the sink: the
/// operation's string tag and the paths it touched, never empty.
#[derive(Debug)]
pub struct ChangeEvent {
    pub kind: String,
    pub paths: Vec<String>,
}

/// Mathematical value of a [`ChangeEvent`].
#[verifier::ext_equal]
pub ghost struct ChangeEventModel {
    pub kind: Seq<char>,
    pub paths: Seq<Seq<char>>,
}

impl View for ChangeEvent {
    type V = ChangeEventModel;

    open spec fn view(&self) -> ChangeEventModel {
        ChangeEventModel { kind: self.kind@, paths: paths_model(self.paths@) }
    }
}

/// The models of a sequence of paths.
pub open spec fn paths_model(s: Seq<String>) -> Seq<Seq<char>> {
    s.map_values(|p: String| p@)
}

/// The models of a sequence of raw notifications.
pub open spec fn raw_models(s: Seq<RawEvent>) -> Seq<RawEventModel> {
    s.map_values(|e: RawEvent| e@)
}

/// The models of a sequence of delivered events.
pub open spec fn changes_model(s: Seq<ChangeEvent>) -> Seq<ChangeEventModel> {
    s.map_values(|e: ChangeEvent| e@)
}

/// The event delivered for one raw notification.
pub open spec fn event_of(r: RawEventModel) -> ChangeEventModel {
    ChangeEventModel { kind: kind_label_spec(r.kind), paths: r.paths }
}

/// A deliverable event: it names at least one path and its kind is one
/// of the five tags.
pub open spec fn well_formed(e: ChangeEventModel) -> bool {
    &&& e.paths.len() > 0
    &&& is_kind_label(e.kind)
}

/// What a drain of the relay delivers for a sequence of raw
/// notifications: one event per notification that names a path, in the
/// order the notifications arrived.
pub open spec fn deliveries_of(rs: Seq<RawEventModel>) -> Seq<ChangeEventModel>
    decreases rs.len(),
{
    if rs.len() == 0 {
        Seq::empty()
    } else {
        let d = deliveries_of(rs.drop_last());
        if rs.last().paths.len() == 0 {
            d
        } else {
            d.push(event_of(rs.last()))
        }
    }
}

/// Copies a path list.
fn clone_paths(v: &Vec<String>) -> (r: Vec<String>)
    ensures
        paths_model(r@) == paths_model(v@),
{
    let mut out: Vec<String> = Vec::new();
    let mut i: usize = 0;
    proof {
        assert(paths_model(out@) =~= paths_model(v@).take(0));
    }
    while i < v.len()
        invariant
            i <= v.len(),
            paths_model(out@) == paths_model(v@).take(i as int),
        decreases v.len() - i,
    {
        let ghost before = paths_model(out@);
        out.push(v[i].clone());
        proof {
            assert(paths_model(out@) =~= before.push(v@[i as int]@));
            assert(paths_model(v@).take(i as int).push(paths_model(v@)[i as int]) =~= paths_model(
                v@,
            ).take(i + 1));
        }
        i = i + 1;
    }
    proof {
        assert(paths_model(v@).take(v@.len() as int) =~= paths_model(v@));
    }
    out
}

/// Builds the event delivered for one raw notification: `None` exactly
/// when the notification names no path, which is never delivered.
pub fn make_change_event(raw: &RawEvent) -> (r: Option<ChangeEvent>)
    ensures
        match r {
            Some(ev) => raw@.paths.len() > 0 && ev@ == event_of(raw@),
            None => raw@.paths.len() == 0,
        },
{
    if raw.paths.len() == 0 {
        None
    } else {
        let ev = ChangeEvent { kind: kind_label(raw.kind), paths: clone_paths(&raw.paths) };
        proof {
            assert(ev@ =~= event_of(raw@));
        }
        Some(ev)
    }
}

/// Drains a batch of raw notifications into the events to deliver, in
/// arrival order.
pub fn process_raw_events(events: &Vec<RawEvent>) -> (r: Vec<ChangeEvent>)
    ensures
        changes_model(r@) == deliveries_of(raw_models(events@)),
{
    let ghost ms = raw_models(events@);
    let mut out: Vec<ChangeEvent> = Vec::new();
    let mut i: usize = 0;
    proof {
        assert(ms.take(0) =~= Seq::<RawEventModel>::empty());
        assert(changes_model(out@) =~= Seq::<ChangeEventModel>::empty());
    }
    while i < events.len()
        invariant
            i <= events.len(),
            ms == raw_models(events@),
            ms.len() == events@.len(),
            changes_model(out@) == deliveries_of(ms.take(i as int)),
        decreases events.len() - i,
    {
        proof {
            assert(ms[i as int] == events@[i as int]@);
            assert(ms.take(i + 1).drop_last() =~= ms.take(i as int));
            assert(ms.take(i + 1).last() == ms[i as int]);
        }
        let ghost before = changes_model(out@);
        match make_change_event(&events[i]) {
            Some(ev) => {
                proof {
                    let g = ev@;
                    assert(g == event_of(ms[i as int]));
                }
                out.push(ev);
                proof {
                    assert(changes_model(out@) =~= before.push(event_of(ms[i as int])));
                }
            },
            None => {},
        }
        i = i + 1;
    }
    proof {
        assert(ms.take(ms.len() as int) =~= ms);
    }
    out
}

/// Deliveries keep arrival order: what a batch followed by another batch
/// delivers is what the first delivers, then what the second delivers.
/// No event is reordered past one from an earlier notification.
pub proof fn lemma_deliveries_append(a: Seq<RawEventModel>, b: Seq<RawEventModel>)
    ensures
        deliveries_of(a + b) == deliveries_of(a) + deliveries_of(b),
    decreases b.len(),
{
    if b.len() == 0 {
        assert(a + b =~= a);
        assert(deliveries_of(a) + deliveries_of(b) =~= deliveries_of(a));
    } else {
        lemma_deliveries_append(a, b.drop_last());
        assert((a + b).drop_last() =~= a + b.drop_last());
        assert((a + b).last() == b.last());
        if b.last().paths.len() == 0 {
            assert(deliveries_of(a) + deliveries_of(b) =~= deliveries_of(a) + deliveries_of(
                b.drop_last(),
            ));
        } else {
            assert(deliveries_of(a) + deliveries_of(b) =~= (deliveries_of(a) + deliveries_of(
                b.drop_last(),
            )).push(event_of(b.last())));
        }
    }
}

/// Every delivered event is well formed: it names at least one path and
/// carries one of the five tags.
pub proof fn lemma_deliveries_well_formed(rs: Seq<RawEventModel>)
    ensures
        forall|i: int|
            0 <= i < deliveries_of(rs).len() ==> well_formed(#[trigger] deliveries_of(rs)[i]),
    decreases rs.len(),
{
    if rs.len() > 0 {
        lemma_deliveries_well_formed(rs.drop_last());
        let last = rs.last();
        let d = deliveries_of(rs.drop_last());
        if last.paths.len() > 0 {
            match last.kind {
                ChangeKind::Create => assert(is_kind_label(kind_label_spec(last.kind))),
                ChangeKind::Modify => assert(is_kind_label(kind_label_spec(last.kind))),
                ChangeKind::Remove => assert(is_kind_label(kind_label_spec(last.kind))),
                ChangeKind::Rename => assert(is_kind_label(kind_label_spec(last.kind))),
                ChangeKind::Other => assert(is_kind_label(kind_label_spec(last.kind))),
            }
            assert(well_formed(event_of(last)));
            assert forall|i: int|
                0 <= i < deliveries_of(rs).len() implies well_formed(
                #[trigger] deliveries_of(rs)[i],
            ) by {
                if i < d.len() {
                    assert(deliveries_of(rs)[i] == d[i]);
                } else {
                    assert(deliveries_of(rs)[i] == event_of(last));
                }
            }
        }
    }
}

/// One watch subscription. It is created active, hands out at most one
/// event per raw notification while it is active, and stops for good the
/// first time the sink rejects a delivery. `delivered` is the log of the
/// events handed out so far, in order.
pub struct WatchSession {
    pub active: bool,
    pub delivered: Ghost<Seq<ChangeEventModel>>,
}

impl WatchSession {
    /// A fresh subscription: active, nothing delivered yet. The caller
    /// creates one only after the OS-level subscription was established;
    /// a failed registration leaves no session and delivers no event.
    pub fn new() -> (s: Self)
        ensures
            s.active,
            s.delivered@ == Seq::<ChangeEventModel>::empty(),
    {
        WatchSession { active: true, delivered: Ghost(Seq::empty()) }
    }

    /// Handles one raw notification: while the session is active and the
    /// notification names a path, exactly the event of that notification
    /// is handed out and logged; otherwise nothing is. Handling an event
    /// never changes whether the session is active.
    pub fn on_raw_event(&mut self, raw: &RawEvent) -> (r: Option<ChangeEvent>)
        ensures
            final (self).active == old(self).active,
            !old(self).active ==> r is None && final (self).delivered@ == old(self).delivered@,
            old(self).active && raw@.paths.len() == 0 ==> r is None && final (self).delivered@
                == old(self).delivered@,
            old(self).active && raw@.paths.len() > 0 ==> match r {
                Some(ev) => ev@ == event_of(raw@) && final (self).delivered@ == old(
                    self,
                ).delivered@.push(ev@),
                None => false,
            },
    {
        if !self.active {
            return None;
        }
        match make_change_event(raw) {
            Some(ev) => {
                self.delivered = Ghost(self.delivered@.push(ev@));
                Some(ev)
            },
            None => None,
        }
    }

    /// Records the sink's answer to a delivery: a rejected delivery
    /// stops the session for good, an accepted one changes nothing.
    pub fn record_sink_result(&mut self, accepted: bool)
        ensures
            final (self).active == (old(self).active && accepted),
            final (self).delivered@ == old(self).delivered@,
    {
        if !accepted {
            self.active = false;
        }
    }

    /// Whether the session still delivers events.
    pub fn is_active(&self) -> (r: bool)
        ensures
            r == self.active,
    {
        self.active
    }
}

} // verus!
