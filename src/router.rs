use vstd::prelude::*;

verus! {

/// Name of the event that carries a deep-link URL to the frontend.
pub const DEEP_LINK_EVENT: &'static str = "deep-link://new-url";

/// Identifier of the window that a second launch brings to the foreground.
pub const MAIN_WINDOW: &'static str = "main";

/// What the running instance does for a blocked second launch, as data.
pub enum ActionModel {
    Emit { event: Seq<char>, payload: Seq<char> },
    Focus { label: Seq<char> },
}

/// One side effect that the running instance performs for a second launch.
#[derive(Debug, PartialEq, Eq)]
pub enum RouterAction {
    /// Emit `event` to the frontend with the URL `url` as payload, fire and forget.
    EmitDeepLink { event: String, url: String },
    /// Request focus on the window identified by `label`.
    FocusWindow { label: String },
}

impl DeepView for RouterAction {
    type V = ActionModel;

    open spec fn deep_view(&self) -> ActionModel {
        match self {
            RouterAction::EmitDeepLink { event, url } => ActionModel::Emit {
                event: event@,
                payload: url@,
            },
            RouterAction::FocusWindow { label } => ActionModel::Focus { label: label@ },
        }
    }
}

/// The deep-link URL of a launch: the argument at index 1, where there is one.
pub open spec fn deep_link_url(args: Seq<Seq<char>>) -> Option<Seq<char>> {
    if args.len() >= 2 {
        Some(args[1])
    } else {
        None
    }
}

/// The actions, in order, for a second launch with arguments `args`, where
/// `main_present` tells whether the window "main" was found.
pub open spec fn planned_actions(args: Seq<Seq<char>>, main_present: bool) -> Seq<ActionModel> {
    let emit = match deep_link_url(args) {
        Some(url) => seq![ActionModel::Emit { event: DEEP_LINK_EVENT@, payload: url }],
        None => Seq::empty(),
    };
    let focus = if main_present {
        seq![ActionModel::Focus { label: MAIN_WINDOW@ }]
    } else {
        Seq::empty()
    };
    emit + focus
}

/// Decides what the running instance does when a second launch with
/// arguments `args` and working directory `_cwd` is blocked: relay the URL
/// at index 1, if any, then focus the main window if it was found.
pub fn plan_second_instance(
    args: &Vec<String>,
    _cwd: &str,
    main_present: bool,
) -> (r: Vec<RouterAction>)
    ensures
        r.deep_view() == planned_actions(args.deep_view(), main_present),
{
    let mut r: Vec<RouterAction> = Vec::new();
    if args.len() >= 2 {
        let url = args[1].clone();
        r.push(RouterAction::EmitDeepLink { event: String::from_str(DEEP_LINK_EVENT), url });
    }
    if main_present {
        r.push(RouterAction::FocusWindow { label: String::from_str(MAIN_WINDOW) });
    }
    proof {
        assert(r.deep_view() =~= planned_actions(args.deep_view(), main_present));
    }
    r
}

/// The URLs carried by the deep-link events among `actions`, in order.
pub open spec fn emitted_urls(actions: Seq<ActionModel>) -> Seq<Seq<char>>
    decreases actions.len(),
{
    if actions.len() == 0 {
        Seq::empty()
    } else {
        let rest = emitted_urls(actions.drop_first());
        match actions[0] {
            ActionModel::Emit { event, payload } => if event == DEEP_LINK_EVENT@ {
                seq![payload] + rest
            } else {
                rest
            },
            ActionModel::Focus { .. } => rest,
        }
    }
}

/// Whether `actions` request focus on the main window.
pub open spec fn focus_requested(actions: Seq<ActionModel>) -> bool {
    exists|i: int| 0 <= i < actions.len() && actions[i] == (ActionModel::Focus { label: MAIN_WINDOW@ })
}

proof fn lemma_emitted_urls_of_plan(args: Seq<Seq<char>>, main_present: bool)
    ensures
        emitted_urls(planned_actions(args, main_present)) == match deep_link_url(args) {
            Some(url) => seq![url],
            None => Seq::<Seq<char>>::empty(),
        },
{
    let a = planned_actions(args, main_present);
    reveal_with_fuel(emitted_urls, 3);
    if main_present {
        if args.len() >= 2 {
            assert(a.drop_first() =~= seq![ActionModel::Focus { label: MAIN_WINDOW@ }]);
            assert(a.drop_first().drop_first() =~= Seq::<ActionModel>::empty());
            assert(emitted_urls(a) =~= seq![args[1]]);
        } else {
            assert(a.drop_first() =~= Seq::<ActionModel>::empty());
        }
    } else {
        if args.len() >= 2 {
            assert(a.drop_first() =~= Seq::<ActionModel>::empty());
            assert(emitted_urls(a) =~= seq![args[1]]);
        }
    }
}

/// A launch with fewer than two arguments carries no URL: no deep-link event
/// is emitted for it, whether or not the main window is found.
pub proof fn law_no_url_no_event(args: Seq<Seq<char>>, main_present: bool)
    requires
        args.len() < 2,
    ensures
        emitted_urls(planned_actions(args, main_present)) == Seq::<Seq<char>>::empty(),
{
    lemma_emitted_urls_of_plan(args, main_present);
}

/// A launch with a URL at index 1 has exactly one deep-link event emitted for
/// it, and that event carries that URL.
pub proof fn law_url_emitted_once(args: Seq<Seq<char>>, main_present: bool)
    requires
        args.len() >= 2,
    ensures
        emitted_urls(planned_actions(args, main_present)) == seq![args[1]],
{
    lemma_emitted_urls_of_plan(args, main_present);
}

/// Focus on the main window is requested exactly when the window was found,
/// whatever the arguments, so whether or not an event was emitted.
pub proof fn law_focus_independent_of_event(args: Seq<Seq<char>>, main_present: bool)
    ensures
        focus_requested(planned_actions(args, main_present)) == main_present,
{
    let a = planned_actions(args, main_present);
    if main_present {
        assert(a[a.len() - 1] == (ActionModel::Focus { label: MAIN_WINDOW@ }));
    } else {
        assert forall|i: int| 0 <= i < a.len() implies a[i] is Emit by {}
    }
}

/// Where no window "main" exists, the plan holds no focus request at all:
/// only the deep-link event, if any, and nothing that signals an error.
pub proof fn law_missing_window_is_no_op(args: Seq<Seq<char>>)
    ensures
        forall|i: int| 0 <= i < planned_actions(args, false).len() ==> planned_actions(args, false)[i] is Emit,
        planned_actions(args, false).len() == if args.len() >= 2 { 1int } else { 0int },
{
}

/// Where the arbiter stands: the one visible instance runs alone, or a
/// second launch attempt is being held off.
#[derive(Clone, Copy, Debug, PartialEq, Eq, Structural)]
pub enum ArbiterState {
    SingleRunning,
    Blocked,
}

/// What moves the arbiter.
#[derive(Clone, Copy, Debug, PartialEq, Eq, Structural)]
pub enum ArbiterEvent {
    /// A second instance was started and intercepted.
    SecondLaunch,
    /// Its arguments were relayed to the running instance.
    Relayed,
}

/// The arbiter's transition relation as a function.
pub open spec fn next_state(s: ArbiterState, e: ArbiterEvent) -> ArbiterState {
    match (s, e) {
        (ArbiterState::SingleRunning, ArbiterEvent::SecondLaunch) => ArbiterState::Blocked,
        (ArbiterState::Blocked, ArbiterEvent::Relayed) => ArbiterState::SingleRunning,
        _ => s,
    }
}

impl ArbiterState {
    /// The state after `e`: a second launch blocks, relaying its arguments
    /// returns to running alone, and any other event leaves the state as it is.
    pub fn step(self, e: ArbiterEvent) -> (r: ArbiterState)
        ensures
            r == next_state(self, e),
    {
        match (self, e) {
            (ArbiterState::SingleRunning, ArbiterEvent::SecondLaunch) => ArbiterState::Blocked,
            (ArbiterState::Blocked, ArbiterEvent::Relayed) => ArbiterState::SingleRunning,
            _ => self,
        }
    }
}

} // verus!
