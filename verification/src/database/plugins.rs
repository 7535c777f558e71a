//! A guild's plugins (a set in the cache) and settings (a document).

use vstd::prelude::*;
use crate::json::texts;
use crate::reply::{Fetch, Status};

verus! {

/// The answer to a request for a guild's settings: the stored document, an
/// empty document where there is none, and an error where the store failed.
pub fn get_settings<T>(found: Fetch<T>, empty: T) -> (r: Result<T, Status>)
    ensures
        r == match found {
            Fetch::Found(d) => Ok(d),
            Fetch::Missing => Ok(empty),
            Fetch::Failed => Err(Status::InternalServerError),
        },
{
    match found {
        Fetch::Found(d) => Ok(d),
        Fetch::Missing => Ok(empty),
        Fetch::Failed => Err(Status::InternalServerError),
    }
}

/// Where an edit of a guild's settings stands: the body is still to be
/// read, entry `index` of `total` is being written, or the answer is given.
#[derive(Debug, Clone, Copy, PartialEq, Eq, Structural)]
pub enum SettingsEdit {
    ReadBody,
    Writing { index: usize, total: usize },
    Answered,
}

/// What happened since the last step: the body was read (`None` where it is
/// not an object of documents, else its number of entries), or the write of
/// the current entry succeeded or failed.
#[derive(Debug, Clone, Copy, PartialEq, Eq, Structural)]
pub enum SettingsEvent {
    BodyRead(Option<usize>),
    EntryWritten(bool),
}

/// What to do next: write (upsert) the entry with this index, or answer.
#[derive(Debug, Clone, Copy, PartialEq, Eq, Structural)]
pub enum SettingsAction {
    WriteEntry(usize),
    Answer(Status),
}

/// Whether `event` can follow in `state`.
pub open spec fn settings_event_fits(state: SettingsEdit, event: SettingsEvent) -> bool {
    match state {
        SettingsEdit::ReadBody => event is BodyRead,
        SettingsEdit::Writing { index, total } => event is EntryWritten && index < total,
        SettingsEdit::Answered => false,
    }
}

/// One step of an edit of a guild's settings: a body that is not an object
/// of documents is refused; the entries are written one after the other;
/// the first failed write ends the edit with an error; when all are
/// written, the edit is accepted.
pub open spec fn settings_step(state: SettingsEdit, event: SettingsEvent) -> (SettingsEdit, SettingsAction) {
    match event {
        SettingsEvent::BodyRead(None) => (SettingsEdit::Answered, SettingsAction::Answer(Status::BadRequest)),
        SettingsEvent::BodyRead(Some(n)) => if n == 0 {
            (SettingsEdit::Answered, SettingsAction::Answer(Status::Accepted))
        } else {
            (SettingsEdit::Writing { index: 0, total: n }, SettingsAction::WriteEntry(0))
        },
        SettingsEvent::EntryWritten(ok) => {
            let (index, total) = match state {
                SettingsEdit::Writing { index, total } => (index, total),
                _ => (0, 0),
            };
            if !ok {
                (SettingsEdit::Answered, SettingsAction::Answer(Status::InternalServerError))
            } else if index + 1 == total {
                (SettingsEdit::Answered, SettingsAction::Answer(Status::Accepted))
            } else {
                (SettingsEdit::Writing { index: (index + 1) as usize, total }, SettingsAction::WriteEntry((index + 1) as usize))
            }
        },
    }
}

/// One step of an edit of a guild's settings (see `settings_step`).
pub fn edit_settings(state: SettingsEdit, event: SettingsEvent) -> (r: (SettingsEdit, SettingsAction))
    requires
        settings_event_fits(state, event),
    ensures
        r == settings_step(state, event),
{
    match event {
        SettingsEvent::BodyRead(None) => (SettingsEdit::Answered, SettingsAction::Answer(Status::BadRequest)),
        SettingsEvent::BodyRead(Some(n)) => if n == 0 {
            (SettingsEdit::Answered, SettingsAction::Answer(Status::Accepted))
        } else {
            (SettingsEdit::Writing { index: 0, total: n }, SettingsAction::WriteEntry(0))
        },
        SettingsEvent::EntryWritten(ok) => {
            let (index, total) = match state {
                SettingsEdit::Writing { index, total } => (index, total),
                _ => (0, 0),
            };
            if !ok {
                (SettingsEdit::Answered, SettingsAction::Answer(Status::InternalServerError))
            } else if index + 1 == total {
                (SettingsEdit::Answered, SettingsAction::Answer(Status::Accepted))
            } else {
                (SettingsEdit::Writing { index: index + 1, total }, SettingsAction::WriteEntry(index + 1))
            }
        },
    }
}

#[verifier::external_type_specification]
#[verifier::external_body]
pub struct ExDocument(bson::Document);

/// The settings object that the JSON text `body` holds, as a map from each
/// member name to its document, where `body` reads as an object whose
/// members are all BSON documents; `None` where it does not.
pub uninterp spec fn settings_body(body: Seq<char>) -> Option<Map<Seq<char>, bson::Document>>;

/// Whether the list `e` holds each entry of the map `m` once: as many
/// entries as `m` has names, each name with its own document, no name
/// twice.
pub open spec fn lists_settings(e: Seq<(String, bson::Document)>, m: Map<Seq<char>, bson::Document>) -> bool {
    &&& m.dom().finite()
    &&& e.len() == m.dom().len()
    &&& forall|i: int| 0 <= i < e.len() ==> #[trigger] m.contains_key(e[i].0@) && m[e[i].0@] == e[i].1
    &&& forall|i: int, j: int| 0 <= i < j < e.len() ==> #[trigger] e[i].0@ != #[trigger] e[j].0@
}

/// Calls `serde_json::from_str` for a `HashMap<String, bson::Document>` and
/// lists the map's entries. Whether the text reads as such a map, and the
/// map itself, are named: both depend on the text alone. Each entry is
/// listed once, with its own document. The order in which the map is
/// walked depends on the process's hasher and is not stated.
#[verifier::external_body]
fn settings_entries(body: &str) -> (r: Option<Vec<(String, bson::Document)>>)
    ensures
        r is Some <==> settings_body(body@) is Some,
        r matches Some(e) ==> (settings_body(body@) matches Some(m) && lists_settings(e@, m)),
{
    serde_json::from_str::<std::collections::HashMap<String, bson::Document>>(body)
        .ok()
        .map(|m| m.into_iter().collect())
}

/// The event that reading the settings body `body` is: its number of
/// entries, or `None` where it is not an object of documents.
pub open spec fn settings_body_event(body: Seq<char>) -> SettingsEvent {
    match settings_body(body) {
        Some(m) => SettingsEvent::BodyRead(Some(m.dom().len() as usize)),
        None => SettingsEvent::BodyRead(None),
    }
}

/// The start of an edit of a guild's settings: the entries to write, one
/// per member of the body's object, and the first step.
#[derive(Debug)]
pub struct SettingsStart {
    pub entries: Vec<(String, bson::Document)>,
    pub state: SettingsEdit,
    pub action: SettingsAction,
}

/// Reads the JSON text `body` of a settings edit as an object of documents
/// and takes the first step: a body that is not such an object is refused
/// and leaves nothing to write; otherwise each of its members is an entry,
/// each name once and with its own document, and the writes begin (or the
/// edit is accepted at once where there are none).
pub fn start_settings_edit(body: &str) -> (r: SettingsStart)
    ensures
        (r.state, r.action) == settings_step(SettingsEdit::ReadBody, settings_body_event(body@)),
        settings_body(body@) is None ==> r.entries@.len() == 0,
        settings_body(body@) matches Some(m) ==> lists_settings(r.entries@, m),
        settings_body(body@) is None ==> r.state == SettingsEdit::Answered && r.action
            == SettingsAction::Answer(Status::BadRequest),
        settings_body(body@) is Some && r.entries@.len() == 0 ==> r.state == SettingsEdit::Answered
            && r.action == SettingsAction::Answer(Status::Accepted),
        settings_body(body@) is Some && r.entries@.len() > 0 ==> r.state == (SettingsEdit::Writing {
            index: 0,
            total: r.entries.len(),
        }) && r.action == SettingsAction::WriteEntry(0),
{
    match settings_entries(body) {
        Some(entries) => {
            let (state, action) = edit_settings(SettingsEdit::ReadBody, SettingsEvent::BodyRead(Some(entries.len())));
            SettingsStart { entries, state, action }
        },
        None => {
            let (state, action) = edit_settings(SettingsEdit::ReadBody, SettingsEvent::BodyRead(None));
            SettingsStart { entries: Vec::new(), state, action }
        },
    }
}

/// The actions that an edit in `state` takes when the writes of the
/// following entries end with `results`, one result per write.
pub open spec fn settings_run(state: SettingsEdit, results: Seq<bool>) -> Seq<SettingsAction>
    decreases results.len(),
{
    if results.len() == 0 || !(state is Writing) {
        Seq::empty()
    } else {
        let (next, action) = settings_step(state, SettingsEvent::EntryWritten(results[0]));
        seq![action] + settings_run(next, results.drop_first())
    }
}

/// When every write succeeds, the entries after the current one are written
/// one by one, in order, and the edit is then accepted.
pub proof fn lemma_settings_all_written(index: usize, total: usize, results: Seq<bool>)
    requires
        index < total,
        results.len() == total - index,
        forall|j: int| 0 <= j < results.len() ==> #[trigger] results[j],
    ensures
        ({
            let a = settings_run(SettingsEdit::Writing { index, total }, results);
            &&& a.len() == total - index
            &&& a.last() == SettingsAction::Answer(Status::Accepted)
            &&& forall|k: int| 0 <= k < a.len() - 1 ==> #[trigger] a[k] == SettingsAction::WriteEntry(
                (index + k + 1) as usize,
            )
        }),
    decreases total - index,
{
    let state = SettingsEdit::Writing { index, total };
    assert(results[0]);
    let (next, action) = settings_step(state, SettingsEvent::EntryWritten(results[0]));
    let rest = results.drop_first();
    if index + 1 == total {
        assert(rest.len() == 0);
        assert(settings_run(next, rest) =~= Seq::<SettingsAction>::empty());
        assert(settings_run(state, results) =~= seq![action]);
    } else {
        assert forall|j: int| 0 <= j < rest.len() implies #[trigger] rest[j] by {
            assert(rest[j] == results[j + 1]);
        }
        lemma_settings_all_written((index + 1) as usize, total, rest);
        let tail = settings_run(next, rest);
        let a = settings_run(state, results);
        assert(a =~= seq![action] + tail);
        assert forall|k: int| 0 <= k < a.len() - 1 implies #[trigger] a[k] == SettingsAction::WriteEntry(
            (index + k + 1) as usize,
        ) by {
            if k > 0 {
                assert(a[k] == tail[k - 1]);
            }
        }
    }
}

/// When a write fails, the edit stops there with an error: the entries
/// before it were written one by one, in order, and nothing after it.
pub proof fn lemma_settings_stop_at_failure(index: usize, total: usize, results: Seq<bool>, failed: int)
    requires
        index < total,
        results.len() == total - index,
        0 <= failed < results.len(),
        !results[failed],
        forall|j: int| 0 <= j < failed ==> #[trigger] results[j],
    ensures
        ({
            let a = settings_run(SettingsEdit::Writing { index, total }, results);
            &&& a.len() == failed + 1
            &&& a[failed] == SettingsAction::Answer(Status::InternalServerError)
            &&& forall|k: int| 0 <= k < failed ==> #[trigger] a[k] == SettingsAction::WriteEntry(
                (index + k + 1) as usize,
            )
        }),
    decreases total - index,
{
    let state = SettingsEdit::Writing { index, total };
    let (next, action) = settings_step(state, SettingsEvent::EntryWritten(results[0]));
    let rest = results.drop_first();
    if failed == 0 {
        assert(next == SettingsEdit::Answered);
        assert(settings_run(next, rest) =~= Seq::<SettingsAction>::empty());
        assert(settings_run(state, results) =~= seq![action]);
    } else {
        assert(results[0]);
        assert(index + 1 < total);
        assert(!rest[failed - 1]);
        assert forall|j: int| 0 <= j < failed - 1 implies #[trigger] rest[j] by {
            assert(rest[j] == results[j + 1]);
        }
        lemma_settings_stop_at_failure((index + 1) as usize, total, rest, failed - 1);
        let tail = settings_run(next, rest);
        let a = settings_run(state, results);
        assert(a =~= seq![action] + tail);
        assert forall|k: int| 0 <= k < failed implies #[trigger] a[k] == SettingsAction::WriteEntry(
            (index + k + 1) as usize,
        ) by {
            if k > 0 {
                assert(a[k] == tail[k - 1]);
            }
        }
    }
}

/// An edit whose body reads as an object of `n > 0` documents plans one
/// write per entry: it writes entry 0 first, and when every write succeeds
/// it writes each entry `k < n` in turn, entry `k` as its `k`-th action,
/// and then accepts the edit. No entry is left out.
pub proof fn lemma_settings_edit_writes_every_entry(body: Seq<char>, results: Seq<bool>)
    requires
        settings_body(body) is Some,
        settings_body(body)->0.dom().finite(),
        0 < settings_body(body)->0.dom().len() <= usize::MAX,
        results.len() == settings_body(body)->0.dom().len(),
        forall|j: int| 0 <= j < results.len() ==> #[trigger] results[j],
    ensures
        ({
            let n = settings_body(body)->0.dom().len();
            let (state, first) = settings_step(SettingsEdit::ReadBody, settings_body_event(body));
            let acts = seq![first] + settings_run(state, results);
            &&& state == (SettingsEdit::Writing { index: 0, total: n as usize })
            &&& acts.len() == n + 1
            &&& forall|k: int| 0 <= k < n ==> #[trigger] acts[k] == SettingsAction::WriteEntry(k as usize)
            &&& acts[n as int] == SettingsAction::Answer(Status::Accepted)
        }),
{
    let n = settings_body(body)->0.dom().len();
    let (state, first) = settings_step(SettingsEdit::ReadBody, settings_body_event(body));
    assert(state == (SettingsEdit::Writing { index: 0, total: n as usize }));
    lemma_settings_all_written(0, n as usize, results);
    let rest = settings_run(state, results);
    let acts = seq![first] + rest;
    assert forall|k: int| 0 <= k < n implies #[trigger] acts[k] == SettingsAction::WriteEntry(k as usize) by {
        if k > 0 {
            assert(acts[k] == rest[k - 1]);
        }
    }
    assert(acts[n as int] == rest[n - 1]);
}

/// The answer to a request for a guild's plugins: the members of its plugin
/// set, or "service unavailable" where the cache failed.
pub fn get_plugins(members: Option<Vec<String>>) -> (r: Result<Vec<String>, Status>)
    ensures
        r == match members {
            Some(m) => Ok(m),
            None => Err(Status::ServiceUnavailable),
        },
{
    match members {
        Some(m) => Ok(m),
        None => Err(Status::ServiceUnavailable),
    }
}

/// The items of `xs` that are not in `ys`, in the order of `xs`.
pub open spec fn missing_from(xs: Seq<Seq<char>>, ys: Seq<Seq<char>>) -> Seq<Seq<char>>
    decreases xs.len(),
{
    if xs.len() == 0 {
        Seq::empty()
    } else {
        let rest = missing_from(xs.drop_last(), ys);
        if ys.contains(xs.last()) {
            rest
        } else {
            rest.push(xs.last())
        }
    }
}

/// The writes that turn a guild's plugin set into the requested one: the
/// requested plugins to add and the current ones to remove.
#[derive(Debug, Clone)]
pub struct PluginChanges {
    pub add: Vec<String>,
    pub remove: Vec<String>,
}

/// Whether `x` is in `v`.
fn contains_text(v: &Vec<String>, x: &String) -> (r: bool)
    ensures
        r == texts(v@).contains(x@),
{
    let mut i: usize = 0;
    while i < v.len()
        invariant
            i <= v.len(),
            forall|k: int| 0 <= k < i ==> v@[k]@ != x@,
        decreases v.len() - i,
    {
        if v[i] == *x {
            assert(texts(v@)[i as int] == x@);
            return true;
        }
        i = i + 1;
    }
    proof {
        if texts(v@).contains(x@) {
            let k = choose|k: int| 0 <= k < texts(v@).len() && texts(v@)[k] == x@;
            assert(v@[k]@ == x@);
        }
    }
    false
}

/// The items of `xs` that are not in `ys`, in the order of `xs`.
fn missing(xs: &Vec<String>, ys: &Vec<String>) -> (r: Vec<String>)
    ensures
        texts(r@) == missing_from(texts(xs@), texts(ys@)),
{
    let mut out: Vec<String> = Vec::new();
    let mut i: usize = 0;
    while i < xs.len()
        invariant
            i <= xs.len(),
            texts(out@) == missing_from(texts(xs@).take(i as int), texts(ys@)),
        decreases xs.len() - i,
    {
        let ghost before = texts(xs@).take(i as int);
        let ghost after = texts(xs@).take(i + 1);
        assert(after.drop_last() =~= before);
        assert(after.last() == xs@[i as int]@);
        if !contains_text(ys, &xs[i]) {
            out.push(xs[i].clone());
            assert(texts(out@) =~= missing_from(before, texts(ys@)).push(xs@[i as int]@));
        }
        i = i + 1;
    }
    assert(texts(xs@).take(xs.len() as int) =~= texts(xs@));
    out
}

/// The writes that turn the plugin set `current` into `requested`: add each
/// requested plugin that is not there, remove each present one that is not
/// requested.
pub fn plugin_changes(requested: &Vec<String>, current: &Vec<String>) -> (c: PluginChanges)
    ensures
        texts(c.add@) == missing_from(texts(requested@), texts(current@)),
        texts(c.remove@) == missing_from(texts(current@), texts(requested@)),
{
    PluginChanges { add: missing(requested, current), remove: missing(current, requested) }
}

impl PluginChanges {
    /// Whether there is anything to write.
    pub fn is_empty(&self) -> (r: bool)
        ensures
            r == (self.add@.len() == 0 && self.remove@.len() == 0),
    {
        self.add.len() == 0 && self.remove.len() == 0
    }
}

/// The answer to an edit of a guild's plugins: accepted when nothing had
/// to be written or the writes succeeded, an error when they failed.
pub fn edit_plugins(changes: &PluginChanges, written: bool) -> (s: Status)
    ensures
        s == if changes.add@.len() == 0 && changes.remove@.len() == 0 || written {
            Status::Accepted
        } else {
            Status::InternalServerError
        },
{
    if changes.is_empty() || written {
        Status::Accepted
    } else {
        Status::InternalServerError
    }
}

/// The items that `missing_from` keeps are those of `xs` not in `ys`.
pub proof fn lemma_missing_from_contains(xs: Seq<Seq<char>>, ys: Seq<Seq<char>>, x: Seq<char>)
    ensures
        missing_from(xs, ys).contains(x) <==> (xs.contains(x) && !ys.contains(x)),
    decreases xs.len(),
{
    if xs.len() > 0 {
        let init = xs.drop_last();
        lemma_missing_from_contains(init, ys, x);
        assert(xs =~= init.push(xs.last()));
        if xs.contains(x) && x != xs.last() {
            let k = choose|k: int| 0 <= k < xs.len() && xs[k] == x;
            assert(init[k] == x);
        }
        if init.contains(x) {
            let k = choose|k: int| 0 <= k < init.len() && init[k] == x;
            assert(xs[k] == x);
        }
        let rest = missing_from(init, ys);
        if !ys.contains(xs.last()) {
            assert(rest.push(xs.last()).last() == xs.last());
            if rest.contains(x) {
                let k = choose|k: int| 0 <= k < rest.len() && rest[k] == x;
                assert(rest.push(xs.last())[k] == x);
            }
            if rest.push(xs.last()).contains(x) && x != xs.last() {
                let k = choose|k: int| 0 <= k < rest.len() + 1 && rest.push(xs.last())[k] == x;
                assert(rest[k] == x);
            }
        }
        assert(xs.last() == xs[xs.len() - 1]);
    }
}

/// After the changes are written (the additions, then the removals), the
/// guild's plugin set is exactly the requested set.
pub proof fn lemma_plugin_changes_reach_request(requested: Seq<Seq<char>>, current: Seq<Seq<char>>)
    ensures
        current.to_set().union(missing_from(requested, current).to_set()).difference(
            missing_from(current, requested).to_set(),
        ) == requested.to_set(),
{
    let add = missing_from(requested, current);
    let remove = missing_from(current, requested);
    assert forall|x: Seq<char>| #[trigger] current.to_set().union(add.to_set()).difference(
        remove.to_set(),
    ).contains(x) == requested.to_set().contains(x) by {
        lemma_missing_from_contains(requested, current, x);
        lemma_missing_from_contains(current, requested, x);
    }
    assert(current.to_set().union(add.to_set()).difference(remove.to_set()) =~= requested.to_set());
}

/// An edit of the plugins writes nothing exactly when the requested set is
/// the current set.
pub proof fn lemma_no_plugin_changes_iff_same_set(requested: Seq<Seq<char>>, current: Seq<Seq<char>>)
    ensures
        (missing_from(requested, current).len() == 0 && missing_from(current, requested).len() == 0)
            <==> requested.to_set() == current.to_set(),
{
    let add = missing_from(requested, current);
    let remove = missing_from(current, requested);
    if add.len() == 0 && remove.len() == 0 {
        assert forall|x: Seq<char>| #[trigger] requested.to_set().contains(x) == current.to_set().contains(x) by {
            lemma_missing_from_contains(requested, current, x);
            lemma_missing_from_contains(current, requested, x);
            if requested.contains(x) && !current.contains(x) {
                assert(add.contains(x));
            }
            if current.contains(x) && !requested.contains(x) {
                assert(remove.contains(x));
            }
        }
        assert(requested.to_set() =~= current.to_set());
    }
    if requested.to_set() == current.to_set() {
        if add.len() > 0 {
            lemma_missing_from_contains(requested, current, add[0]);
            assert(add.contains(add[0]));
            assert(requested.to_set().contains(add[0]));
        }
        if remove.len() > 0 {
            lemma_missing_from_contains(current, requested, remove[0]);
            assert(remove.contains(remove[0]));
            assert(current.to_set().contains(remove[0]));
        }
    }
}

} // verus!
