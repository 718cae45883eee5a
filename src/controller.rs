use vstd::prelude::*;
use crate::queue::MutationQueue;
use crate::script::{edit_script_text, edit_scripts};

verus! {

/// Whether no two entries of a window list share an identifier.
pub open spec fn ids_unique<W>(entries: Seq<(u64, W)>) -> bool {
    forall|i: int, j: int|
        0 <= i < entries.len() && 0 <= j < entries.len() && i != j ==> #[trigger] entries[i].0
            != #[trigger] entries[j].0
}

/// Whether a window list holds a window with identifier `id`.
pub open spec fn has_window<W>(entries: Seq<(u64, W)>, id: u64) -> bool {
    exists|i: int| 0 <= i < entries.len() && #[trigger] entries[i].0 == id
}

/// The window list once the window `id` is gone: its entry is removed and the
/// others keep their order.
pub open spec fn after_close<W>(entries: Seq<(u64, W)>, id: u64) -> Seq<(u64, W)> {
    if has_window(entries, id) {
        entries.remove(choose|i: int| 0 <= i < entries.len() && #[trigger] entries[i].0 == id)
    } else {
        entries
    }
}

/// Whether closing `id` ends the application.
pub open spec fn close_exits<W>(entries: Seq<(u64, W)>, id: u64, quit_on_close: bool) -> bool {
    quit_on_close && after_close(entries, id).len() == 0
}

/// With exactly one window open and the quit-on-close policy on, closing
/// that window ends the application.
pub proof fn lemma_closing_last_window_quits<W>(entries: Seq<(u64, W)>, id: u64)
    requires
        entries.len() == 1,
        entries[0].0 == id,
    ensures
        close_exits(entries, id, true),
{
    assert(has_window(entries, id));
}

/// With two windows open, closing one of them does not end the application,
/// whatever the policy.
pub proof fn lemma_closing_one_of_two_keeps_running<W>(
    entries: Seq<(u64, W)>,
    id: u64,
    quit_on_close: bool,
)
    requires
        ids_unique(entries),
        entries.len() == 2,
    ensures
        !close_exits(entries, id, quit_on_close),
{
}

/// What the window side does when batches may be ready.
pub enum LoadOutcome {
    /// The readiness flag is down: nothing was taken from the queue.
    NotReady,
    /// The flag is up but no window is open: nothing was taken from the queue.
    NoWindow,
    /// Run `scripts`, in order, in the window `window`.
    Apply { window: u64, scripts: Vec<String> },
}

/// The main-thread side of the bridge: the live windows, in the order they
/// were opened, each with its handle, and the quit-on-close policy.
pub struct DesktopController<W> {
    webviews: Vec<(u64, W)>,
    quit_app_on_close: bool,
}

impl<W> DesktopController<W> {
    /// The live windows, oldest first.
    pub closed spec fn windows(&self) -> Seq<(u64, W)> {
        self.webviews@
    }

    /// Whether closing the last window ends the application.
    pub closed spec fn quit_on_close(&self) -> bool {
        self.quit_app_on_close
    }

    /// No two live windows share an identifier.
    pub open spec fn wf(&self) -> bool {
        ids_unique(self.windows())
    }

    /// A controller with no window.
    pub fn new(quit_app_on_close: bool) -> (r: Self)
        ensures
            r.wf(),
            r.windows() == Seq::<(u64, W)>::empty(),
            r.quit_on_close() == quit_app_on_close,
    {
        DesktopController { webviews: Vec::new(), quit_app_on_close }
    }

    /// Reads the quit-on-close policy.
    pub fn quits_on_close(&self) -> (r: bool)
        ensures
            r == self.quit_on_close(),
    {
        self.quit_app_on_close
    }

    /// Sets the quit-on-close policy.
    pub fn set_quit_on_close(&mut self, quit: bool)
        ensures
            final(self).windows() == old(self).windows(),
            final(self).quit_on_close() == quit,
    {
        self.quit_app_on_close = quit;
    }

    /// The number of live windows.
    pub fn window_count(&self) -> (r: usize)
        ensures
            r == self.windows().len(),
    {
        self.webviews.len()
    }

    /// The position of the window `id`, if it is live.
    fn position(&self, id: u64) -> (r: Option<usize>)
        requires
            self.wf(),
        ensures
            r is None ==> !has_window(self.windows(), id),
            r matches Some(i) ==> i < self.windows().len() && self.windows()[i as int].0 == id,
    {
        let mut i: usize = 0;
        while i < self.webviews.len()
            invariant
                i <= self.webviews@.len(),
                forall|j: int| 0 <= j < i ==> (#[trigger] self.webviews@[j]).0 != id,
            decreases self.webviews@.len() - i,
        {
            if self.webviews[i].0 == id {
                return Some(i);
            }
            i = i + 1;
        }
        None
    }

    /// Whether the window `id` is live.
    pub fn contains(&self, id: u64) -> (r: bool)
        requires
            self.wf(),
        ensures
            r == has_window(self.windows(), id),
    {
        self.position(id).is_some()
    }

    /// Registers a window. A live window with the same identifier has its
    /// handle replaced in place; otherwise the window goes last.
    pub fn add_window(&mut self, id: u64, view: W)
        requires
            old(self).wf(),
        ensures
            final(self).wf(),
            final(self).quit_on_close() == old(self).quit_on_close(),
            has_window(old(self).windows(), id) ==> exists|i: int|
                0 <= i < old(self).windows().len() && old(self).windows()[i].0 == id
                    && final(self).windows() == old(self).windows().update(i, (id, view)),
            !has_window(old(self).windows(), id)
                ==> final(self).windows() == old(self).windows().push((id, view)),
    {
        match self.position(id) {
            Some(i) => {
                self.webviews.set(i, (id, view));
                assert(ids_unique(self.webviews@));
            },
            None => {
                self.webviews.push((id, view));
                assert(ids_unique(self.webviews@)) by {
                    let e = self.webviews@;
                    assert forall|a: int, b: int|
                        0 <= a < e.len() && 0 <= b < e.len() && a != b implies #[trigger] e[a].0
                        != #[trigger] e[b].0 by {
                        if a == e.len() - 1 {
                            assert(old(self).webviews@[b] == e[b]);
                        } else if b == e.len() - 1 {
                            assert(old(self).webviews@[a] == e[a]);
                        }
                    }
                }
            },
        }
    }

    /// Forgets the window `id` and reports whether the application should
    /// now end: it should when no window is left and the quit-on-close
    /// policy is on.
    pub fn close_window(&mut self, id: u64) -> (exit: bool)
        requires
            old(self).wf(),
        ensures
            final(self).wf(),
            final(self).windows() == after_close(old(self).windows(), id),
            final(self).quit_on_close() == old(self).quit_on_close(),
            exit == close_exits(old(self).windows(), id, old(self).quit_on_close()),
            exit == (old(self).quit_on_close() && final(self).windows().len() == 0),
            final(self).windows().len() == if has_window(old(self).windows(), id) {
                old(self).windows().len() - 1
            } else {
                old(self).windows().len() as int
            },
            forall|x: u64|
                has_window(final(self).windows(), x) == (x != id && has_window(
                    old(self).windows(),
                    x,
                )),
    {
        if let Some(i) = self.position(id) {
            let ghost e = self.webviews@;
            self.webviews.remove(i);
            proof {
                let k = choose|k: int| 0 <= k < e.len() && #[trigger] e[k].0 == id;
                assert(e[i as int].0 == id);
                assert(k == i);
                let f = self.webviews@;
                assert forall|x: u64| has_window(f, x) == (x != id && has_window(e, x)) by {
                    if has_window(f, x) {
                        let j = choose|j: int| 0 <= j < f.len() && #[trigger] f[j].0 == x;
                        if j < i {
                            assert(e[j] == f[j]);
                        } else {
                            assert(e[j + 1] == f[j]);
                        }
                    }
                    if x != id && has_window(e, x) {
                        let j = choose|j: int| 0 <= j < e.len() && #[trigger] e[j].0 == x;
                        if j < i {
                            assert(f[j] == e[j]);
                        } else {
                            assert(f[j - 1] == e[j]);
                        }
                    }
                }
            }
        }
        self.webviews.len() == 0 && self.quit_app_on_close
    }

    /// The first live window's handle, if any window is open.
    pub fn first_window(&self) -> (r: Option<&W>)
        ensures
            self.windows().len() == 0 ==> r is None,
            self.windows().len() > 0 ==> r == Some(&self.windows()[0].1),
    {
        if self.webviews.len() == 0 {
            None
        } else {
            Some(&self.webviews[0].1)
        }
    }

    /// Takes the waiting batches, if the readiness flag is up and a window is
    /// open, and turns each into the script that applies it in the first live
    /// window. In every other case the queue is left as it was.
    pub fn try_load_ready_webviews(&self, queue: &mut MutationQueue) -> (r: LoadOutcome)
        ensures
            final(queue).ready() == old(queue).ready(),
            !old(queue).ready() ==> r is NotReady
                && final(queue).pending() == old(queue).pending(),
            old(queue).ready() && self.windows().len() == 0 ==> r is NoWindow
                && final(queue).pending() == old(queue).pending(),
            old(queue).ready() && self.windows().len() > 0 ==> {
                &&& final(queue).pending() == Seq::<String>::empty()
                &&& r matches LoadOutcome::Apply { window, scripts }
                &&& window == self.windows()[0].0
                &&& scripts@.len() == old(queue).pending().len()
                &&& forall|i: int|
                    0 <= i < scripts@.len() ==> scripts@[i]@ == edit_script_text(
                        #[trigger] old(queue).pending()[i]@,
                    )
            },
    {
        if !queue.is_ready() {
            return LoadOutcome::NotReady;
        }
        if self.webviews.len() == 0 {
            return LoadOutcome::NoWindow;
        }
        let batches = queue.drain_if_ready();
        let scripts = edit_scripts(&batches);
        LoadOutcome::Apply { window: self.webviews[0].0, scripts }
    }
}

} // verus!
