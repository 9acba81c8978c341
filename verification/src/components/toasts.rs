//! The toast display's state: the toasts on show and the id the next one gets.
use crate::models::toasts::{ToastCommand, ToastEntry};
use std::time::Duration;
use vstd::prelude::*;

verus! {

/// The toasts on display, oldest first, and the id that the next pushed toast gets.
pub struct ToastQueueView {
    pub entries: Seq<ToastEntry>,
    pub next_id: nat,
}

/// The entry with its slide-out started.
pub open spec fn mark_dismissing(e: ToastEntry) -> ToastEntry {
    ToastEntry { is_dismissing: true, ..e }
}

/// The entries without those whose id is `id`, in their order.
pub open spec fn without_id(s: Seq<ToastEntry>, id: usize) -> Seq<ToastEntry>
    decreases s.len(),
{
    if s.len() == 0 {
        s
    } else {
        let rest = without_id(s.drop_last(), id);
        if s.last().id == id {
            rest
        } else {
            rest.push(s.last())
        }
    }
}

impl ToastQueueView {
    /// Ids increase from the oldest toast to the newest, and all lie below the next id.
    pub open spec fn wf(self) -> bool {
        &&& self.next_id <= usize::MAX
        &&& forall|i: int, j: int|
            0 <= i < j < self.entries.len() ==> #[trigger] self.entries[i].id
                < #[trigger] self.entries[j].id
        &&& forall|i: int| 0 <= i < self.entries.len() ==> #[trigger] self.entries[i].id < self.next_id
    }

    /// Some toast on display has this id.
    pub open spec fn has_id(self, id: usize) -> bool {
        exists|i: int| 0 <= i < self.entries.len() && #[trigger] self.entries[i].id == id
    }

    /// A new toast appended with the next id; it starts without a duration of its own.
    pub open spec fn pushed(
        self,
        title: String,
        message: Option<String>,
        level: crate::models::toasts::ToastLevel,
    ) -> ToastQueueView {
        ToastQueueView {
            entries: self.entries.push(
                ToastEntry {
                    id: self.next_id as usize,
                    title,
                    message,
                    level,
                    is_dismissing: false,
                    duration: None,
                },
            ),
            next_id: self.next_id + 1,
        }
    }

    /// The toasts with this id start their slide-out.
    pub open spec fn dismissed(self, id: usize) -> ToastQueueView {
        ToastQueueView {
            entries: self.entries.map_values(
                |e: ToastEntry|
                    if e.id == id {
                        mark_dismissing(e)
                    } else {
                        e
                    },
            ),
            next_id: self.next_id,
        }
    }

    /// The toasts with this id leave the display.
    pub open spec fn removed(self, id: usize) -> ToastQueueView {
        ToastQueueView { entries: without_id(self.entries, id), next_id: self.next_id }
    }

    /// The state after a command.
    pub open spec fn after(self, cmd: ToastCommand) -> ToastQueueView {
        match cmd {
            ToastCommand::Push { title, message, level, duration: _ } => self.pushed(
                title,
                message,
                level,
            ),
            ToastCommand::Dismiss(id) => self.dismissed(id),
            ToastCommand::Remove(id) => self.removed(id),
        }
    }
}

/// The timer that a command asks for: the new toast's id and its duration.
pub open spec fn timer_for(v: ToastQueueView, cmd: ToastCommand) -> Option<(usize, Duration)> {
    match cmd {
        ToastCommand::Push { duration: Some(d), .. } => Some((v.next_id as usize, d)),
        _ => None,
    }
}

/// Every command keeps the toast state well formed: ids stay increasing and below the next id.
pub proof fn lemma_command_preserves_wf(v: ToastQueueView, cmd: ToastCommand)
    requires
        v.wf(),
        cmd is Push ==> v.next_id < usize::MAX,
    ensures
        v.after(cmd).wf(),
{
    match cmd {
        ToastCommand::Push { title, message, level, duration: _ } => {
            let w = v.pushed(title, message, level);
            assert forall|i: int, j: int| 0 <= i < j < w.entries.len() implies #[trigger] w.entries[i].id
                < #[trigger] w.entries[j].id by {
                if j == w.entries.len() - 1 {
                    assert(v.entries[i].id < v.next_id);
                } else {
                    assert(v.entries[i].id < v.entries[j].id);
                }
            }
            assert forall|i: int| 0 <= i < w.entries.len() implies #[trigger] w.entries[i].id
                < w.next_id by {
                if i < v.entries.len() {
                    assert(v.entries[i].id < v.next_id);
                }
            }
        },
        ToastCommand::Dismiss(id) => {
            let w = v.dismissed(id);
            assert forall|i: int, j: int| 0 <= i < j < w.entries.len() implies #[trigger] w.entries[i].id
                < #[trigger] w.entries[j].id by {
                assert(v.entries[i].id < v.entries[j].id);
            }
            assert forall|i: int| 0 <= i < w.entries.len() implies #[trigger] w.entries[i].id
                < w.next_id by {
                assert(v.entries[i].id < v.next_id);
            }
        },
        ToastCommand::Remove(id) => {
            if v.has_id(id) {
                let k = choose|k: int| 0 <= k < v.entries.len() && #[trigger] v.entries[k].id == id;
                lemma_removed_at(v, id, k);
                let w = v.removed(id);
                assert forall|i: int, j: int| 0 <= i < j < w.entries.len() implies #[trigger] w.entries[i].id
                    < #[trigger] w.entries[j].id by {
                    let oi = if i < k { i } else { i + 1 };
                    let oj = if j < k { j } else { j + 1 };
                    assert(w.entries[i] == v.entries[oi]);
                    assert(w.entries[j] == v.entries[oj]);
                    assert(v.entries[oi].id < v.entries[oj].id);
                }
                assert forall|i: int| 0 <= i < w.entries.len() implies #[trigger] w.entries[i].id
                    < w.next_id by {
                    let oi = if i < k { i } else { i + 1 };
                    assert(w.entries[i] == v.entries[oi]);
                    assert(v.entries[oi].id < v.next_id);
                }
            } else {
                lemma_absent_id_is_no_op(v, id);
            }
        },
    }
}

/// A push keeps the toasts on display and appends one that shows the pushed title, message and
/// level, with the next id, not yet sliding out; the next id moves up by one.
pub proof fn lemma_push_shows_what_was_pushed(
    v: ToastQueueView,
    title: String,
    message: Option<String>,
    level: crate::models::toasts::ToastLevel,
)
    requires
        v.wf(),
    ensures
        v.pushed(title, message, level).entries.len() == v.entries.len() + 1,
        v.pushed(title, message, level).entries.drop_last() == v.entries,
        v.pushed(title, message, level).entries.last().id == v.next_id,
        v.pushed(title, message, level).entries.last().title == title,
        v.pushed(title, message, level).entries.last().message == message,
        v.pushed(title, message, level).entries.last().level == level,
        !v.pushed(title, message, level).entries.last().is_dismissing,
        v.pushed(title, message, level).next_id == v.next_id + 1,
{
    assert(v.pushed(title, message, level).entries.drop_last() =~= v.entries);
}

/// A pushed toast gets an id that no toast on display has.
pub proof fn lemma_pushed_id_is_fresh(v: ToastQueueView)
    requires
        v.wf(),
        v.next_id < usize::MAX,
    ensures
        !v.has_id(v.next_id as usize),
{
    if v.has_id(v.next_id as usize) {
        let k = choose|k: int| 0 <= k < v.entries.len() && #[trigger] v.entries[k].id == v.next_id as usize;
        assert(v.entries[k].id < v.next_id);
    }
}

/// Dismissing or removing an id that no toast has changes nothing.
pub proof fn lemma_absent_id_is_no_op(v: ToastQueueView, id: usize)
    requires
        !v.has_id(id),
    ensures
        v.dismissed(id) == v,
        v.removed(id) == v,
{
    assert forall|i: int| 0 <= i < v.entries.len() implies #[trigger] v.entries[i].id != id by {
        if v.entries[i].id == id {
            assert(v.has_id(id));
        }
    }
    assert(v.dismissed(id).entries =~= v.entries);
    lemma_without_absent(v.entries, id);
}

/// Removing the toast that was just pushed gives back the toasts that were on display before.
pub proof fn lemma_push_then_remove(
    v: ToastQueueView,
    title: String,
    message: Option<String>,
    level: crate::models::toasts::ToastLevel,
)
    requires
        v.wf(),
        v.next_id < usize::MAX,
    ensures
        v.pushed(title, message, level).removed(v.next_id as usize).entries == v.entries,
        v.pushed(title, message, level).removed(v.next_id as usize).next_id == v.next_id + 1,
{
    let w = v.pushed(title, message, level);
    lemma_command_preserves_wf(v, ToastCommand::Push { title, message, level, duration: None });
    lemma_removed_at(w, v.next_id as usize, v.entries.len() as int);
    assert(w.entries.remove(v.entries.len() as int) =~= v.entries);
}

/// Removing a toast on display takes exactly that one toast away.
pub proof fn lemma_remove_takes_one(v: ToastQueueView, id: usize)
    requires
        v.wf(),
        v.has_id(id),
    ensures
        v.removed(id).entries.len() == v.entries.len() - 1,
        !v.removed(id).has_id(id),
{
    let k = choose|k: int| 0 <= k < v.entries.len() && #[trigger] v.entries[k].id == id;
    lemma_removed_at(v, id, k);
    let w = v.removed(id);
    if w.has_id(id) {
        let i = choose|i: int| 0 <= i < w.entries.len() && #[trigger] w.entries[i].id == id;
        let oi = if i < k { i } else { i + 1 };
        assert(w.entries[i] == v.entries[oi]);
        if oi < k {
            assert(v.entries[oi].id < v.entries[k].id);
        } else {
            assert(v.entries[k].id < v.entries[oi].id);
        }
    }
}

/// Dismissal keeps every toast in place with its id, and dismissing twice is dismissing once.
pub proof fn lemma_dismiss_keeps_toasts(v: ToastQueueView, id: usize)
    ensures
        v.dismissed(id).entries.len() == v.entries.len(),
        forall|i: int|
            0 <= i < v.entries.len() ==> (#[trigger] v.dismissed(id).entries[i]).id
                == v.entries[i].id,
        v.dismissed(id).dismissed(id) == v.dismissed(id),
        v.dismissed(id).has_id(id) == v.has_id(id),
{
    let w = v.dismissed(id);
    assert(w.dismissed(id).entries =~= w.entries);
    if v.has_id(id) {
        let k = choose|k: int| 0 <= k < v.entries.len() && #[trigger] v.entries[k].id == id;
        assert(w.entries[k].id == id);
    }
    if w.has_id(id) {
        let k = choose|k: int| 0 <= k < w.entries.len() && #[trigger] w.entries[k].id == id;
        assert(v.entries[k].id == id);
    }
}

/// What reaches the toast display: a command, or the self-dismissal timer of a toast running out.
pub enum ToastEvent {
    Command(ToastCommand),
    Expire(usize),
}

impl ToastQueueView {
    /// The display before anything happened: no toasts, and the first toast gets id 0.
    pub open spec fn initial() -> ToastQueueView {
        ToastQueueView { entries: Seq::empty(), next_id: 0 }
    }

    /// The state after an event; a timer running out dismisses its toast.
    pub open spec fn step(self, ev: ToastEvent) -> ToastQueueView {
        match ev {
            ToastEvent::Command(cmd) => self.after(cmd),
            ToastEvent::Expire(id) => self.dismissed(id),
        }
    }
}

/// The state after a run of events from the initial display.
pub open spec fn run_events(events: Seq<ToastEvent>) -> ToastQueueView
    decreases events.len(),
{
    if events.len() == 0 {
        ToastQueueView::initial()
    } else {
        run_events(events.drop_last()).step(events.last())
    }
}

/// How many toasts a run of events pushes.
pub open spec fn push_count(events: Seq<ToastEvent>) -> nat
    decreases events.len(),
{
    if events.len() == 0 {
        0
    } else {
        push_count(events.drop_last()) + if events.last() matches ToastEvent::Command(
            ToastCommand::Push { .. },
        ) {
            1nat
        } else {
            0nat
        }
    }
}

/// Every state that the display reaches from the initial one is well formed: the ids on display
/// are distinct, increase from the oldest toast to the newest and lie below the next id, which
/// counts the toasts pushed so far. This holds as long as the id counter does not run out.
pub proof fn lemma_reachable_states_are_wf(events: Seq<ToastEvent>)
    requires
        push_count(events) <= usize::MAX,
    ensures
        run_events(events).wf(),
        run_events(events).next_id == push_count(events),
        forall|i: int, j: int|
            0 <= i < j < run_events(events).entries.len() ==> #[trigger] run_events(events).entries[i].id
                != #[trigger] run_events(events).entries[j].id,
    decreases events.len(),
{
    if events.len() > 0 {
        let prev = events.drop_last();
        lemma_reachable_states_are_wf(prev);
        let v = run_events(prev);
        match events.last() {
            ToastEvent::Command(cmd) => {
                lemma_command_preserves_wf(v, cmd);
            },
            ToastEvent::Expire(id) => {
                lemma_command_preserves_wf(v, ToastCommand::Dismiss(id));
            },
        }
    }
    let w = run_events(events);
    assert forall|i: int, j: int| 0 <= i < j < w.entries.len() implies #[trigger] w.entries[i].id
        != #[trigger] w.entries[j].id by {
        assert(w.entries[i].id < w.entries[j].id);
    }
}

/// The state that the toast display keeps between commands.
pub struct ToastQueue {
    entries: Vec<ToastEntry>,
    next_id: usize,
}

impl View for ToastQueue {
    type V = ToastQueueView;

    closed spec fn view(&self) -> ToastQueueView {
        ToastQueueView { entries: self.entries@, next_id: self.next_id as nat }
    }
}

proof fn lemma_without_absent(s: Seq<ToastEntry>, id: usize)
    requires
        forall|i: int| 0 <= i < s.len() ==> #[trigger] s[i].id != id,
    ensures
        without_id(s, id) == s,
    decreases s.len(),
{
    if s.len() > 0 {
        lemma_without_absent(s.drop_last(), id);
        assert(s.drop_last().push(s.last()) =~= s);
    }
}

proof fn lemma_without_at(s: Seq<ToastEntry>, id: usize, k: int)
    requires
        0 <= k < s.len(),
        s[k].id == id,
        forall|i: int| 0 <= i < s.len() && i != k ==> #[trigger] s[i].id != id,
    ensures
        without_id(s, id) == s.remove(k),
    decreases s.len(),
{
    let d = s.drop_last();
    if k == s.len() - 1 {
        assert forall|i: int| 0 <= i < d.len() implies #[trigger] d[i].id != id by {
            assert(d[i] == s[i]);
        }
        lemma_without_absent(d, id);
        assert(s.remove(k) =~= d);
    } else {
        assert forall|i: int| 0 <= i < d.len() && i != k implies #[trigger] d[i].id != id by {
            assert(d[i] == s[i]);
        }
        lemma_without_at(d, id, k);
        assert(d.remove(k).push(s.last()) =~= s.remove(k));
    }
}

/// Under well-formedness, at most the one toast with the id leaves.
proof fn lemma_removed_at(v: ToastQueueView, id: usize, k: int)
    requires
        v.wf(),
        0 <= k < v.entries.len(),
        v.entries[k].id == id,
    ensures
        v.removed(id).entries == v.entries.remove(k),
{
    assert forall|i: int| 0 <= i < v.entries.len() && i != k implies #[trigger] v.entries[i].id
        != id by {
        if i < k {
            assert(v.entries[i].id < v.entries[k].id);
        } else {
            assert(v.entries[k].id < v.entries[i].id);
        }
    }
    lemma_without_at(v.entries, id, k);
}

impl ToastQueue {
    /// Holds when the state is well formed.
    pub open spec fn wf(&self) -> bool {
        self@.wf()
    }

    /// An empty display whose first toast gets id 0.
    pub fn new() -> (q: Self)
        ensures
            q@ == ToastQueueView::initial(),
            q.wf(),
    {
        let q = ToastQueue { entries: Vec::new(), next_id: 0 };
        assert(q@.entries =~= Seq::<ToastEntry>::empty());
        q
    }

    /// The toasts on display, oldest first.
    pub fn entries(&self) -> (entries: &Vec<ToastEntry>)
        ensures
            entries@ == self@.entries,
    {
        &self.entries
    }

    /// The id that the next pushed toast gets.
    pub fn next_id(&self) -> (id: usize)
        ensures
            id == self@.next_id,
    {
        self.next_id
    }

    /// The position of the first toast with this id.
    fn find(&self, id: usize) -> (k: Option<usize>)
        ensures
            match k {
                Some(k) => k < self@.entries.len() && self@.entries[k as int].id == id,
                None => !self@.has_id(id),
            },
    {
        let mut i: usize = 0;
        while i < self.entries.len()
            invariant
                i <= self.entries@.len(),
                forall|j: int| 0 <= j < i ==> #[trigger] self.entries@[j].id != id,
            decreases self.entries@.len() - i,
        {
            if self.entries[i].id == id {
                return Some(i);
            }
            i = i + 1;
        }
        None
    }

    /// The toast with this id starts its slide-out; nothing changes when none has it.
    pub fn dismiss(&mut self, id: usize)
        requires
            old(self).wf(),
        ensures
            final(self)@ == old(self)@.dismissed(id),
            final(self).wf(),
    {
        let ghost before = self@;
        match self.find(id) {
            Some(k) => {
                let mut e = self.entries.remove(k);
                e.is_dismissing = true;
                self.entries.insert(k, e);
                assert forall|i: int| 0 <= i < before.entries.len() && i != k implies #[trigger] before.entries[i].id != id by {
                    if i < k {
                        assert(before.entries[i].id < before.entries[k as int].id);
                    } else {
                        assert(before.entries[k as int].id < before.entries[i].id);
                    }
                }
                assert(self@.entries =~= before.dismissed(id).entries);
            },
            None => {
                assert(self@.entries =~= before.dismissed(id).entries);
            },
        }
    }

    /// Applies a command; for a push with a duration, returns the timer to start: the new
    /// toast's id and the duration after which it dismisses itself.
    pub fn handle(&mut self, cmd: ToastCommand) -> (timer: Option<(usize, Duration)>)
        requires
            old(self).wf(),
            cmd is Push ==> old(self)@.next_id < usize::MAX,
        ensures
            final(self)@ == old(self)@.after(cmd),
            final(self).wf(),
            timer == timer_for(old(self)@, cmd),
            cmd matches ToastCommand::Push { title, message, level, .. } ==> {
                &&& final(self)@.entries.len() == old(self)@.entries.len() + 1
                &&& forall|i: int|
                    0 <= i < old(self)@.entries.len() ==> #[trigger] final(self)@.entries[i]
                        == old(self)@.entries[i]
                &&& final(self)@.entries.last().id == old(self)@.next_id
                &&& final(self)@.entries.last().title == title
                &&& final(self)@.entries.last().message == message
                &&& final(self)@.entries.last().level == level
                &&& !final(self)@.entries.last().is_dismissing
                &&& final(self)@.entries.last().duration is None
                &&& final(self)@.next_id == old(self)@.next_id + 1
            },
    {
        let ghost before = self@;
        match cmd {
            ToastCommand::Push { title, message, level, duration } => {
                let id = self.next_id;
                self.next_id = self.next_id + 1;
                self.entries.push(
                    ToastEntry { id, title, message, level, is_dismissing: false, duration: None },
                );
                assert(self@ == before.pushed(title, message, level));
                match duration {
                    Some(d) => Some((id, d)),
                    None => None,
                }
            },
            ToastCommand::Dismiss(id) => {
                self.dismiss(id);
                None
            },
            ToastCommand::Remove(id) => {
                match self.find(id) {
                    Some(k) => {
                        proof {
                            lemma_removed_at(before, id, k as int);
                        }
                        self.entries.remove(k);
                    },
                    None => {
                        proof {
                            lemma_without_absent(before.entries, id);
                        }
                    },
                }
                assert(self@.entries =~= before.removed(id).entries);
                None
            },
        }
    }

    /// The self-dismissal timer of toast `id` ran out: its slide-out starts.
    pub fn expire(&mut self, id: usize)
        requires
            old(self).wf(),
        ensures
            final(self)@ == old(self)@.dismissed(id),
            final(self)@ == old(self)@.step(ToastEvent::Expire(id)),
            final(self).wf(),
    {
        self.dismiss(id);
    }
}

/// The animation that a toast plays: sliding out once dismissed, sliding in before.
pub open spec fn slide_style_of(toast: ToastEntry) -> Seq<char> {
    if toast.is_dismissing {
        "animation-name: toastSlideOut;"@
    } else {
        "animation-name: toastSlideIn;"@
    }
}

/// The style attribute that animates a toast.
pub fn slide_style(toast: &ToastEntry) -> (style: String)
    ensures
        style@ == slide_style_of(*toast),
{
    if toast.is_dismissing {
        String::from_str("animation-name: toastSlideOut;")
    } else {
        String::from_str("animation-name: toastSlideIn;")
    }
}

/// The command that a toast sends when one of its animations ends: once its slide-out has
/// played, it asks to be removed.
pub fn command_on_animation_end(toast: &ToastEntry, animation_name: &String) -> (cmd: Option<ToastCommand>)
    ensures
        cmd == (if toast.is_dismissing && animation_name@ == "toastSlideOut"@ {
            Some(ToastCommand::Remove(toast.id))
        } else {
            None
        }),
{
    let slide_out = String::from_str("toastSlideOut");
    if toast.is_dismissing && animation_name.eq(&slide_out) {
        Some(ToastCommand::Remove(toast.id))
    } else {
        None
    }
}

/// The command that a toast's close button sends.
pub fn command_on_dismiss_click(toast: &ToastEntry) -> (cmd: ToastCommand)
    ensures
        cmd == ToastCommand::Dismiss(toast.id),
{
    ToastCommand::Dismiss(toast.id)
}

} // verus!
