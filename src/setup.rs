//! The setup hook as a state machine: the framework's side (looking the
//! window up, listening, emitting) is performed by the caller, which feeds
//! each outcome back as an event and performs the action it gets.
use vstd::prelude::*;
use vstd::string::StringExecFns;
use crate::events::{
    Emission, main_window_label, main_window_label_spec, native_theme_event,
    native_theme_event_spec, web_theme_event, web_theme_event_spec,
};

verus! {

/// Where the setup hook stands.
#[derive(Clone, Copy, Debug, PartialEq, Eq, Structural)]
pub enum SetupState {
    /// Setup has not run yet.
    Fresh,
    /// The main window has been asked for.
    LookingUp,
    /// The theme listener is in place; every notification is relayed.
    Relaying,
    /// Setup gave up: the main window does not exist.
    Failed,
}

/// Why setup could not complete.
#[derive(Clone, Copy, Debug, PartialEq, Eq, Structural)]
pub enum SetupError {
    MainWindowMissing,
}

/// What the framework reports back to the state machine.
#[derive(Clone, Debug, PartialEq, Eq)]
pub enum SetupEvent {
    /// The framework invoked the setup hook.
    Started,
    /// The lookup of the main window finished; `true` when it was found.
    WindowLookedUp(bool),
    /// The native theme notification fired with this payload.
    ThemeChanged(String),
    /// A relayed event was handed to the web content; `true` on success.
    EmitFinished(bool),
}

/// What the caller is to do next.
#[derive(Clone, Debug, PartialEq, Eq)]
pub enum Action {
    /// Look up the window with this label.
    LookUpWindow(String),
    /// Subscribe, on the main window, to the notification of this name.
    Listen(String),
    /// Hand this event to the web content.
    Emit(Emission),
    /// End setup with this error.
    Fail(SetupError),
    /// Report this diagnostic and carry on.
    Report(String),
    /// Nothing to do.
    Nothing,
}

/// Mathematical form of an `Action`.
pub enum ActionView {
    LookUpWindow(Seq<char>),
    Listen(Seq<char>),
    Emit(Seq<char>, Seq<char>),
    Fail(SetupError),
    Report(Seq<char>),
    Nothing,
}

impl Action {
    pub open spec fn view(&self) -> ActionView {
        match self {
            Action::LookUpWindow(l) => ActionView::LookUpWindow(l@),
            Action::Listen(n) => ActionView::Listen(n@),
            Action::Emit(e) => ActionView::Emit(e.event@, e.payload@),
            Action::Fail(err) => ActionView::Fail(*err),
            Action::Report(m) => ActionView::Report(m@),
            Action::Nothing => ActionView::Nothing,
        }
    }
}

/// Diagnostic reported when a relayed event could not be delivered.
pub open spec fn emit_failure_message_spec() -> Seq<char> {
    "failed to relay the theme change to the web content"@
}

/// The state after `e` arrives in state `s`.
pub open spec fn next_state(s: SetupState, e: SetupEvent) -> SetupState {
    match (s, e) {
        (SetupState::Fresh, SetupEvent::Started) => SetupState::LookingUp,
        (SetupState::LookingUp, SetupEvent::WindowLookedUp(found)) => if found {
            SetupState::Relaying
        } else {
            SetupState::Failed
        },
        _ => s,
    }
}

/// The action owed when `e` arrives in state `s`.
pub open spec fn owed_action(s: SetupState, e: SetupEvent) -> ActionView {
    match (s, e) {
        (SetupState::Fresh, SetupEvent::Started) => ActionView::LookUpWindow(main_window_label_spec()),
        (SetupState::LookingUp, SetupEvent::WindowLookedUp(found)) => if found {
            ActionView::Listen(native_theme_event_spec())
        } else {
            ActionView::Fail(SetupError::MainWindowMissing)
        },
        (SetupState::Relaying, SetupEvent::ThemeChanged(p)) => ActionView::Emit(
            web_theme_event_spec(),
            p@,
        ),
        (SetupState::Relaying, SetupEvent::EmitFinished(ok)) => if ok {
            ActionView::Nothing
        } else {
            ActionView::Report(emit_failure_message_spec())
        },
        _ => ActionView::Nothing,
    }
}

impl SetupState {
    /// Takes one event: the next state and the one action owed for it.
    pub fn step(self, e: &SetupEvent) -> (r: (SetupState, Action))
        ensures
            r.0 == next_state(self, *e),
            r.1@ == owed_action(self, *e),
    {
        match (self, e) {
            (SetupState::Fresh, SetupEvent::Started) => (
                SetupState::LookingUp,
                Action::LookUpWindow(main_window_label()),
            ),
            (SetupState::LookingUp, SetupEvent::WindowLookedUp(found)) => {
                if *found {
                    (SetupState::Relaying, Action::Listen(native_theme_event()))
                } else {
                    (SetupState::Failed, Action::Fail(SetupError::MainWindowMissing))
                }
            },
            (SetupState::Relaying, SetupEvent::ThemeChanged(p)) => {
                let payload = p.clone();
                (
                    SetupState::Relaying,
                    Action::Emit(Emission { event: web_theme_event(), payload }),
                )
            },
            (SetupState::Relaying, SetupEvent::EmitFinished(ok)) => {
                if *ok {
                    (SetupState::Relaying, Action::Nothing)
                } else {
                    (
                        SetupState::Relaying,
                        Action::Report(
                            String::from_str(
                                "failed to relay the theme change to the web content",
                            ),
                        ),
                    )
                }
            },
            _ => (self, Action::Nothing),
        }
    }
}

} // verus!

verus! {

/// The state reached from `s` after the events `evs`, in order.
pub open spec fn run(s: SetupState, evs: Seq<SetupEvent>) -> SetupState
    decreases evs.len(),
{
    if evs.len() == 0 {
        s
    } else {
        run(next_state(s, evs[0]), evs.drop_first())
    }
}

/// How many `Listen` actions are owed from `s` over the events `evs`.
pub open spec fn listen_count(s: SetupState, evs: Seq<SetupEvent>) -> nat
    decreases evs.len(),
{
    if evs.len() == 0 {
        0
    } else {
        let here: nat = if owed_action(s, evs[0]) is Listen {
            1
        } else {
            0
        };
        here + listen_count(next_state(s, evs[0]), evs.drop_first())
    }
}

/// Runs the setup hook once the main window has been looked up: from a
/// fresh state, the hook starts and takes the lookup's outcome. On success
/// it gives the relaying state and the notification to listen to.
pub fn init(main_window_found: bool) -> (r: Result<(SetupState, String), SetupError>)
    ensures
        r is Ok <==> main_window_found,
        r matches Ok((s, ev)) ==> s == SetupState::Relaying && ev@ == native_theme_event_spec()
            && s == run(SetupState::Fresh, seq![SetupEvent::Started, SetupEvent::WindowLookedUp(true)]),
        r matches Err(err) ==> err == SetupError::MainWindowMissing,
{
    let (s, _look_up) = SetupState::Fresh.step(&SetupEvent::Started);
    let (s, action) = s.step(&SetupEvent::WindowLookedUp(main_window_found));
    proof {
        let evs = seq![SetupEvent::Started, SetupEvent::WindowLookedUp(true)];
        assert(evs.drop_first() =~= seq![SetupEvent::WindowLookedUp(true)]);
        assert(evs.drop_first().drop_first() =~= Seq::<SetupEvent>::empty());
        assert(run(SetupState::Relaying, evs.drop_first().drop_first()) == SetupState::Relaying);
        assert(run(SetupState::LookingUp, evs.drop_first()) == SetupState::Relaying);
    }
    match action {
        Action::Listen(ev) => Ok((s, ev)),
        Action::Fail(err) => Err(err),
        _ => Err(SetupError::MainWindowMissing),
    }
}

/// Once relaying, the state never changes again.
pub proof fn lemma_relaying_is_final(evs: Seq<SetupEvent>)
    ensures
        run(SetupState::Relaying, evs) == SetupState::Relaying,
        listen_count(SetupState::Relaying, evs) == 0,
    decreases evs.len(),
{
    if evs.len() > 0 {
        lemma_relaying_is_final(evs.drop_first());
    }
}

/// Every native theme notification that reaches a relaying setup is handed
/// to the web content exactly once, under the web event name, with its
/// payload unchanged, and relaying goes on afterwards.
pub proof fn lemma_relay_forwards_payload(payload: String)
    ensures
        owed_action(SetupState::Relaying, SetupEvent::ThemeChanged(payload))
            == ActionView::Emit(web_theme_event_spec(), payload@),
        next_state(SetupState::Relaying, SetupEvent::ThemeChanged(payload)) == SetupState::Relaying,
{
}

/// The theme listener is subscribed at most once over any sequence of
/// events from a fresh start, and exactly once when setup ends up relaying;
/// from then on no notification is missed: each one is forwarded.
pub proof fn lemma_subscribes_once(evs: Seq<SetupEvent>, payload: String)
    ensures
        listen_count(SetupState::Fresh, evs) <= 1,
        listen_count(SetupState::Fresh, evs) == 1 <==> run(SetupState::Fresh, evs)
            == SetupState::Relaying,
        run(SetupState::Fresh, evs) == SetupState::Relaying ==> owed_action(
            run(SetupState::Fresh, evs),
            SetupEvent::ThemeChanged(payload),
        ) == ActionView::Emit(web_theme_event_spec(), payload@),
{
    lemma_listen_count_from(SetupState::Fresh, evs);
}

proof fn lemma_listen_count_from(s: SetupState, evs: Seq<SetupEvent>)
    ensures
        listen_count(s, evs) == (if s != SetupState::Relaying && run(s, evs)
            == SetupState::Relaying {
            1nat
        } else {
            0nat
        }),
    decreases evs.len(),
{
    if evs.len() > 0 {
        let s1 = next_state(s, evs[0]);
        lemma_listen_count_from(s1, evs.drop_first());
        if owed_action(s, evs[0]) is Listen {
            lemma_relaying_is_final(evs.drop_first());
        }
    }
}

} // verus!
