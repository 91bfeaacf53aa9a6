use vstd::prelude::*;

verus! {

/// What the controller reads of one window: whether it is shown, whether it
/// is minimized, and whether it holds input focus.
#[derive(Clone, Copy, Debug, PartialEq, Eq, Structural)]
pub struct WindowState {
    pub visible: bool,
    pub minimized: bool,
    pub focused: bool,
}

/// The requests made of one window while it is restored. They are issued in
/// the order unminimize, show, focus.
#[derive(Clone, Copy, Debug, PartialEq, Eq, Structural)]
pub struct RestoreSteps {
    pub unminimize: bool,
    pub show: bool,
    pub focus: bool,
}

/// The window at the head of the restore order is the primary one; all
/// others are secondary.
pub open spec fn is_primary(i: int) -> bool {
    i == 0
}

/// The requests that restore one window: un-minimize it only if it is
/// minimized, always make it visible, and focus it only if it is primary.
pub open spec fn steps_for(s: WindowState, primary: bool) -> RestoreSteps {
    RestoreSteps { unminimize: s.minimized, show: true, focus: primary }
}

/// The state of a window after the given requests were made of it.
pub open spec fn apply_steps(s: WindowState, st: RestoreSteps) -> WindowState {
    WindowState {
        visible: s.visible || st.show,
        minimized: s.minimized && !st.unminimize,
        focused: s.focused || st.focus,
    }
}

/// A restored window: visible, not minimized, and focused if it is primary;
/// a secondary window keeps the focus state it had.
pub open spec fn restored(s: WindowState, primary: bool) -> WindowState {
    WindowState { visible: true, minimized: false, focused: s.focused || primary }
}

/// The requests for every window of the restore order; an absent window gets
/// none.
pub open spec fn plan_of(windows: Seq<Option<WindowState>>) -> Seq<Option<RestoreSteps>> {
    Seq::new(
        windows.len(),
        |i: int|
            match windows[i] {
                Some(s) => Some(steps_for(s, is_primary(i))),
                None => None,
            },
    )
}

pub open spec fn apply_slot(w: Option<WindowState>, st: Option<RestoreSteps>) -> Option<
    WindowState,
> {
    match (w, st) {
        (Some(s), Some(t)) => Some(apply_steps(s, t)),
        _ => w,
    }
}

/// The windows after each was handed the requests at its position in `plan`.
pub open spec fn apply_plan(
    windows: Seq<Option<WindowState>>,
    plan: Seq<Option<RestoreSteps>>,
) -> Seq<Option<WindowState>> {
    Seq::new(windows.len(), |i: int| apply_slot(windows[i], plan[i]))
}

/// The outcome of restoring all windows: every window that exists is
/// restored, and absent windows stay absent.
pub open spec fn restore_all(windows: Seq<Option<WindowState>>) -> Seq<Option<WindowState>> {
    Seq::new(
        windows.len(),
        |i: int|
            match windows[i] {
                Some(s) => Some(restored(s, is_primary(i))),
                None => None,
            },
    )
}

/// `n` restores in succession.
pub open spec fn restore_times(windows: Seq<Option<WindowState>>, n: nat) -> Seq<
    Option<WindowState>,
>
    decreases n,
{
    if n == 0 {
        windows
    } else {
        restore_all(restore_times(windows, (n - 1) as nat))
    }
}

/// The names by which windows are looked up, in restore order: the primary
/// window first.
pub fn restore_order() -> (r: Vec<String>)
    ensures
        r@.len() == 2,
        r@[0]@ == "main"@,
        r@[1]@ == "popup"@,
{
    let mut r: Vec<String> = Vec::new();
    r.push(String::from_str("main"));
    r.push(String::from_str("popup"));
    r
}

/// The requests that restore a window in the given state.
pub fn restore_steps(state: WindowState, primary: bool) -> (r: RestoreSteps)
    ensures
        r == steps_for(state, primary),
{
    RestoreSteps { unminimize: state.minimized, show: true, focus: primary }
}

impl WindowState {
    /// Records that the given requests were made of this window.
    pub fn apply(&mut self, st: RestoreSteps)
        ensures
            *final(self) == apply_steps(*old(self), st),
    {
        if st.unminimize {
            self.minimized = false;
        }
        if st.show {
            self.visible = true;
        }
        if st.focus {
            self.focused = true;
        }
    }
}

/// The requests that restore every window of `windows`, given in restore
/// order, `None` standing for a window that does not exist.
pub fn plan_restore(windows: &Vec<Option<WindowState>>) -> (plan: Vec<Option<RestoreSteps>>)
    ensures
        plan@ == plan_of(windows@),
{
    let mut plan: Vec<Option<RestoreSteps>> = Vec::new();
    let mut i: usize = 0;
    while i < windows.len()
        invariant
            i <= windows@.len(),
            plan@ == plan_of(windows@).take(i as int),
        decreases windows@.len() - i,
    {
        let steps = match windows[i] {
            Some(s) => Some(restore_steps(s, i == 0)),
            None => None,
        };
        plan.push(steps);
        i = i + 1;
        assert(plan@ =~= plan_of(windows@).take(i as int));
    }
    assert(plan@ =~= plan_of(windows@));
    plan
}

/// Records in `windows` that each was handed the requests at its position in
/// `plan`.
pub fn apply_plan_to(windows: &mut Vec<Option<WindowState>>, plan: &Vec<Option<RestoreSteps>>)
    requires
        old(windows)@.len() == plan@.len(),
    ensures
        final(windows)@ == apply_plan(old(windows)@, plan@),
{
    let ghost start = windows@;
    let mut i: usize = 0;
    while i < windows.len()
        invariant
            i <= windows@.len(),
            windows@.len() == start.len(),
            start.len() == plan@.len(),
            forall|j: int| 0 <= j < i ==> windows@[j] == apply_slot(start[j], plan@[j]),
            forall|j: int| i <= j < windows@.len() ==> windows@[j] == start[j],
        decreases windows@.len() - i,
    {
        let next = match (windows[i], plan[i]) {
            (Some(s), Some(t)) => {
                let mut s2 = s;
                s2.apply(t);
                Some(s2)
            },
            (w, _) => w,
        };
        windows.set(i, next);
        i = i + 1;
    }
    assert(windows@ =~= apply_plan(start, plan@));
}

/// Carrying out the plan of a set of windows restores them.
pub proof fn lemma_plan_restores(windows: Seq<Option<WindowState>>)
    ensures
        apply_plan(windows, plan_of(windows)) == restore_all(windows),
{
    assert(apply_plan(windows, plan_of(windows)) =~= restore_all(windows));
}

/// Restores every window of `windows` and returns the requests that do so.
pub fn restore_all_windows(windows: &mut Vec<Option<WindowState>>) -> (plan: Vec<
    Option<RestoreSteps>,
>)
    ensures
        plan@ == plan_of(old(windows)@),
        final(windows)@ == restore_all(old(windows)@),
{
    let plan = plan_restore(windows);
    apply_plan_to(windows, &plan);
    proof {
        lemma_plan_restores(old(windows)@);
    }
    plan
}

/// Restoring all windows twice in succession leaves them as restoring them
/// once does.
pub proof fn lemma_restore_idempotent(windows: Seq<Option<WindowState>>)
    ensures
        restore_all(restore_all(windows)) == restore_all(windows),
{
    assert(restore_all(restore_all(windows)) =~= restore_all(windows));
}

/// After any number (at least one) of restores in succession, every window
/// that exists is visible and not minimized, the primary window is focused,
/// and a secondary window is focused only if it already was; no window
/// appears or disappears.
pub proof fn lemma_restore_sequence(windows: Seq<Option<WindowState>>, n: nat)
    requires
        n >= 1,
    ensures
        restore_times(windows, n).len() == windows.len(),
        forall|i: int|
            0 <= i < windows.len() ==> (#[trigger] restore_times(windows, n)[i] is Some
                <==> windows[i] is Some),
        forall|i: int|
            0 <= i < windows.len() && #[trigger] restore_times(windows, n)[i] is Some ==> {
                let s = restore_times(windows, n)[i]->Some_0;
                &&& s.visible
                &&& !s.minimized
                &&& (is_primary(i) ==> s.focused)
                &&& (!is_primary(i) ==> s.focused == windows[i]->Some_0.focused)
            },
    decreases n,
{
    if n == 1 {
        assert(restore_times(windows, 0) == windows);
    } else {
        lemma_restore_sequence(windows, (n - 1) as nat);
        let prev = restore_times(windows, (n - 1) as nat);
        lemma_restore_idempotent(restore_times(windows, (n - 2) as nat));
        assert(restore_times(windows, n) == restore_all(prev));
        if n >= 2 {
            assert(prev == restore_all(restore_times(windows, (n - 2) as nat)));
        }
    }
}

/// When the secondary window does not exist, restoring still fully restores
/// the primary window and leaves the secondary one absent.
pub proof fn lemma_restore_without_secondary(main: WindowState)
    ensures
        restore_all(seq![Some(main), None]) == seq![
            Some(WindowState { visible: true, minimized: false, focused: true }),
            None::<WindowState>,
        ],
{
    assert(restore_all(seq![Some(main), None]) =~= seq![
        Some(WindowState { visible: true, minimized: false, focused: true }),
        None::<WindowState>,
    ]);
}

} // verus!
