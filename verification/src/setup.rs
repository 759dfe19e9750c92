use vstd::prelude::*;
use crate::config::{Config, ConfigView};
use crate::message::Notice;

verus! {

/// Where the start-up prompt stands.
#[derive(Clone, Copy, Debug, PartialEq, Eq, Structural)]
pub enum SetupStage {
    /// The name form is shown.
    AskName,
    /// The choice between a new network and joining one is shown.
    ChooseNetwork,
    /// The form for the address of a peer to join is shown.
    AskNetwork,
    /// The prompt has closed; the configuration is final.
    Done,
}

/// What the user does in the prompt.
#[derive(Debug)]
pub enum SetupEvent {
    /// A name was submitted from the name form.
    SubmitName(String),
    /// "Make a new network" was pressed.
    NewNetwork,
    /// "Join a network" was pressed.
    JoinNetwork,
    /// An address was submitted from the network form.
    SubmitNetwork(String),
}

/// A `SetupEvent` as mathematical values.
pub enum SetupInput {
    SubmitName(Seq<char>),
    NewNetwork,
    JoinNetwork,
    SubmitNetwork(Seq<char>),
}

impl View for SetupEvent {
    type V = SetupInput;

    open spec fn view(&self) -> SetupInput {
        match self {
            SetupEvent::SubmitName(s) => SetupInput::SubmitName(s@),
            SetupEvent::NewNetwork => SetupInput::NewNetwork,
            SetupEvent::JoinNetwork => SetupInput::JoinNetwork,
            SetupEvent::SubmitNetwork(s) => SetupInput::SubmitNetwork(s@),
        }
    }
}

/// What the user interface does in answer to an event.
#[derive(Clone, Copy, Debug, PartialEq, Eq, Structural)]
pub enum SetupAction {
    /// Show the notice over the current form, which stays.
    Notify(Notice),
    /// Close the name form and offer the choice of network.
    ShowNetworkChoice,
    /// Open the form for a peer's address.
    ShowNetworkForm,
    /// Close the prompt.
    Quit,
    /// The event does not apply where the prompt stands.
    Ignore,
}

/// The prompt's state as mathematical values.
pub struct SetupState {
    pub stage: SetupStage,
    pub config: ConfigView,
}

/// The prompt's rules: from a state and an input, the next state and the answer.
pub open spec fn setup_next(s: SetupState, input: SetupInput) -> (SetupState, SetupAction) {
    match (s.stage, input) {
        (SetupStage::AskName, SetupInput::SubmitName(name)) => if name.len() == 0 {
            (s, SetupAction::Notify(Notice::NameRequired))
        } else {
            (
                SetupState {
                    stage: SetupStage::ChooseNetwork,
                    config: ConfigView { user: name, network: s.config.network },
                },
                SetupAction::ShowNetworkChoice,
            )
        },
        (SetupStage::ChooseNetwork, SetupInput::NewNetwork) => (
            SetupState {
                stage: SetupStage::Done,
                config: ConfigView { user: s.config.user, network: None },
            },
            SetupAction::Quit,
        ),
        (SetupStage::ChooseNetwork, SetupInput::JoinNetwork) => (
            SetupState { stage: SetupStage::AskNetwork, config: s.config },
            SetupAction::ShowNetworkForm,
        ),
        (SetupStage::AskNetwork, SetupInput::SubmitNetwork(addr)) => if addr.len() == 0 {
            (s, SetupAction::Notify(Notice::NetworkAddressRequired))
        } else {
            (
                SetupState {
                    stage: SetupStage::Done,
                    config: ConfigView { user: s.config.user, network: Some(addr) },
                },
                SetupAction::Quit,
            )
        },
        _ => (s, SetupAction::Ignore),
    }
}

/// The state in which the prompt opens.
pub open spec fn setup_start() -> SetupState {
    SetupState {
        stage: SetupStage::AskName,
        config: ConfigView { user: Seq::empty(), network: None },
    }
}

/// The state after each input of `inputs` in turn.
pub open spec fn setup_run(s: SetupState, inputs: Seq<SetupInput>) -> SetupState
    decreases inputs.len(),
{
    if inputs.len() == 0 {
        s
    } else {
        setup_next(setup_run(s, inputs.drop_last()), inputs.last()).0
    }
}

/// The prompt's invariant: a name is set once the name form is passed, the
/// network stays unset until the end, and a chosen address is not empty.
pub open spec fn setup_wf(s: SetupState) -> bool {
    &&& s.stage != SetupStage::AskName ==> s.config.user.len() > 0
    &&& s.stage != SetupStage::Done ==> s.config.network is None
    &&& s.config.network matches Some(a) ==> a.len() > 0
}

/// The start-up prompt: asks for a name, then for a new network or the address of a peer.
pub struct Setup {
    stage: SetupStage,
    config: Config,
}

impl View for Setup {
    type V = SetupState;

    closed spec fn view(&self) -> SetupState {
        SetupState { stage: self.stage, config: self.config@ }
    }
}

impl Setup {
    /// The prompt opens on the name form, with an empty configuration.
    pub fn new() -> (s: Setup)
        ensures
            s@ == setup_start(),
    {
        Setup { stage: SetupStage::AskName, config: Config::default() }
    }

    /// Applies the user's action and tells the user interface what to show.
    pub fn step(&mut self, event: SetupEvent) -> (action: SetupAction)
        ensures
            (final(self)@, action) == setup_next(old(self)@, event@),
    {
        match event {
            SetupEvent::SubmitName(name) => {
                if self.stage == SetupStage::AskName {
                    if name.as_str().is_empty() {
                        SetupAction::Notify(Notice::NameRequired)
                    } else {
                        self.config.user(name.as_str());
                        self.stage = SetupStage::ChooseNetwork;
                        SetupAction::ShowNetworkChoice
                    }
                } else {
                    SetupAction::Ignore
                }
            },
            SetupEvent::NewNetwork => {
                if self.stage == SetupStage::ChooseNetwork {
                    self.config.network(None);
                    self.stage = SetupStage::Done;
                    SetupAction::Quit
                } else {
                    SetupAction::Ignore
                }
            },
            SetupEvent::JoinNetwork => {
                if self.stage == SetupStage::ChooseNetwork {
                    self.stage = SetupStage::AskNetwork;
                    SetupAction::ShowNetworkForm
                } else {
                    SetupAction::Ignore
                }
            },
            SetupEvent::SubmitNetwork(addr) => {
                if self.stage == SetupStage::AskNetwork {
                    if addr.as_str().is_empty() {
                        SetupAction::Notify(Notice::NetworkAddressRequired)
                    } else {
                        self.config.network(Some(addr.as_str()));
                        self.stage = SetupStage::Done;
                        SetupAction::Quit
                    }
                } else {
                    SetupAction::Ignore
                }
            },
        }
    }

    pub fn stage(&self) -> (st: SetupStage)
        ensures
            st == self@.stage,
    {
        self.stage
    }

    pub fn is_finished(&self) -> (b: bool)
        ensures
            b == (self@.stage == SetupStage::Done),
    {
        self.stage == SetupStage::Done
    }

    pub fn config(&self) -> (c: &Config)
        ensures
            c@ == self@.config,
    {
        &self.config
    }

    /// The configuration that the prompt hands back when it closes.
    pub fn into_config(self) -> (c: Config)
        ensures
            c@ == self@.config,
    {
        self.config
    }
}

/// Every step keeps the prompt's invariant.
pub proof fn lemma_setup_step_keeps_wf(s: SetupState, input: SetupInput)
    requires
        setup_wf(s),
    ensures
        setup_wf(setup_next(s, input).0),
{
}

/// The invariant holds in every state that the prompt reaches.
pub proof fn lemma_setup_run_wf(inputs: Seq<SetupInput>)
    ensures
        setup_wf(setup_run(setup_start(), inputs)),
    decreases inputs.len(),
{
    if inputs.len() > 0 {
        lemma_setup_run_wf(inputs.drop_last());
        lemma_setup_step_keeps_wf(setup_run(setup_start(), inputs.drop_last()), inputs.last());
    }
}

/// An empty name or address is answered with a notice and changes nothing.
pub proof fn lemma_setup_refuses_empty(s: SetupState)
    ensures
        s.stage == SetupStage::AskName ==> setup_next(s, SetupInput::SubmitName(Seq::empty()))
            == (s, SetupAction::Notify(Notice::NameRequired)),
        s.stage == SetupStage::AskNetwork ==> setup_next(
            s,
            SetupInput::SubmitNetwork(Seq::empty()),
        ) == (s, SetupAction::Notify(Notice::NetworkAddressRequired)),
{
}

/// The prompt closes exactly when it reaches its final state; after that it
/// ignores everything, and what it hands back has a non-empty name and either
/// no network or a non-empty address.
pub proof fn lemma_setup_quit_is_final(s: SetupState, input: SetupInput)
    requires
        setup_wf(s),
    ensures
        (setup_next(s, input).1 == SetupAction::Quit) == (s.stage != SetupStage::Done
            && setup_next(s, input).0.stage == SetupStage::Done),
        setup_next(s, input).1 == SetupAction::Quit ==> {
            let c = setup_next(s, input).0.config;
            c.user.len() > 0 && (c.network matches Some(a) ==> a.len() > 0)
        },
        s.stage == SetupStage::Done ==> setup_next(s, input) == (s, SetupAction::Ignore),
{
}

/// A non-empty name followed by "Make a new network" yields that name and no network.
pub proof fn lemma_setup_new_network(name: Seq<char>)
    requires
        name.len() > 0,
    ensures
        setup_run(setup_start(), seq![SetupInput::SubmitName(name), SetupInput::NewNetwork])
            == (SetupState {
            stage: SetupStage::Done,
            config: ConfigView { user: name, network: None },
        }),
{
    let inputs = seq![SetupInput::SubmitName(name), SetupInput::NewNetwork];
    let first = seq![SetupInput::SubmitName(name)];
    assert(inputs.drop_last() =~= first);
    assert(first.drop_last() =~= Seq::<SetupInput>::empty());
    assert(setup_run(setup_start(), Seq::<SetupInput>::empty()) == setup_start());
    let s1 = setup_run(setup_start(), first);
    assert(s1 == setup_next(setup_start(), SetupInput::SubmitName(name)).0);
    assert(setup_run(setup_start(), inputs) == setup_next(s1, SetupInput::NewNetwork).0);
}

/// A non-empty name, "Join a network" and a non-empty address yield that name and that address.
pub proof fn lemma_setup_join_network(name: Seq<char>, addr: Seq<char>)
    requires
        name.len() > 0,
        addr.len() > 0,
    ensures
        setup_run(
            setup_start(),
            seq![
                SetupInput::SubmitName(name),
                SetupInput::JoinNetwork,
                SetupInput::SubmitNetwork(addr),
            ],
        ) == (SetupState {
            stage: SetupStage::Done,
            config: ConfigView { user: name, network: Some(addr) },
        }),
{
    let inputs = seq![
        SetupInput::SubmitName(name),
        SetupInput::JoinNetwork,
        SetupInput::SubmitNetwork(addr),
    ];
    let first = seq![SetupInput::SubmitName(name)];
    let two = seq![SetupInput::SubmitName(name), SetupInput::JoinNetwork];
    assert(inputs.drop_last() =~= two);
    assert(two.drop_last() =~= first);
    assert(first.drop_last() =~= Seq::<SetupInput>::empty());
    assert(setup_run(setup_start(), Seq::<SetupInput>::empty()) == setup_start());
    let s1 = setup_run(setup_start(), first);
    assert(s1 == setup_next(setup_start(), SetupInput::SubmitName(name)).0);
    let s2 = setup_run(setup_start(), two);
    assert(s2 == setup_next(s1, SetupInput::JoinNetwork).0);
    assert(setup_run(setup_start(), inputs) == setup_next(s2, SetupInput::SubmitNetwork(addr)).0);
}

} // verus!
