use vstd::prelude::*;
use crate::events::{EventKind, EventTable, following_event, next_event};
use crate::settings::{BufferField, EndpointRole, WsSettings, destroy_ws_settings};
use crate::trace::{occurrences, lemma_occurrences_push, lemma_occurrences_absent};

verus! {

/// Where an endpoint stands in its life.
#[derive(Clone, Copy, Debug, PartialEq, Eq, Structural)]
pub enum Stage {
    Uninitialized,
    BackendLoaded,
    ContextCreated,
    CallbacksRegistered,
    Configured,
    Connected,
    Bound,
    Running,
    ShuttingDown,
    Terminated,
}

/// The backend operation the caller is to perform next, or `Finish` once
/// the endpoint has terminated.
#[derive(Clone, Copy, Debug, PartialEq, Eq, Structural)]
pub enum Command {
    /// Open the backend library and resolve its entry points.
    LoadBackend,
    CreateContext,
    /// Register the handler of this event on the context.
    Register(EventKind),
    /// Apply the settings descriptor to the context.
    Setup,
    /// Connect to the configured host and port (client role).
    Open,
    /// Listen on the configured host and port (server role).
    Bind,
    /// Run one unit of the backend's event pump; its result says whether to
    /// keep running.
    Operate,
    DestroyContext,
    Finish,
}

/// A one-line diagnostic that a transition produces.
#[derive(Clone, Copy, Debug, PartialEq, Eq, Structural)]
pub enum Diagnostic {
    LoadFailed,
    CreateFailed,
    RegisterFailed(EventKind),
    SetupFailed,
    OpenFailed,
    BindFailed,
}

impl Diagnostic {
    /// Every diagnostic ends the run but a failed registration.
    pub open spec fn spec_is_fatal(self) -> bool {
        !(self is RegisterFailed)
    }

    pub fn is_fatal(&self) -> (r: bool)
        ensures
            r == self.spec_is_fatal(),
    {
        match self {
            Diagnostic::RegisterFailed(_) => false,
            _ => true,
        }
    }
}

/// What happened during a run, in order: each command handed out, and the
/// release of the settings descriptor.
#[derive(Clone, Copy, Debug, PartialEq, Eq, Structural)]
pub enum Effect {
    Issued(Command),
    SettingsReleased,
}

/// The stage, next command and diagnostic that follow `pending` when it
/// succeeded (`ok`) or failed.
pub open spec fn transition(role: EndpointRole, pending: Command, ok: bool) -> (
    Stage,
    Command,
    Option<Diagnostic>,
) {
    match pending {
        Command::LoadBackend => if ok {
            (Stage::BackendLoaded, Command::CreateContext, None)
        } else {
            (Stage::Terminated, Command::Finish, Some(Diagnostic::LoadFailed))
        },
        Command::CreateContext => if ok {
            (Stage::ContextCreated, Command::Register(EventKind::Open), None)
        } else {
            (Stage::Terminated, Command::Finish, Some(Diagnostic::CreateFailed))
        },
        Command::Register(e) => {
            let diag = if ok {
                None
            } else {
                Some(Diagnostic::RegisterFailed(e))
            };
            match next_event(e) {
                Some(n) => (Stage::ContextCreated, Command::Register(n), diag),
                None => (Stage::CallbacksRegistered, Command::Setup, diag),
            }
        },
        Command::Setup => if !ok {
            (Stage::ShuttingDown, Command::DestroyContext, Some(Diagnostic::SetupFailed))
        } else if role == EndpointRole::Client {
            (Stage::Configured, Command::Open, None)
        } else {
            (Stage::Configured, Command::Bind, None)
        },
        Command::Open => if ok {
            (Stage::Connected, Command::Operate, None)
        } else {
            (Stage::ShuttingDown, Command::DestroyContext, Some(Diagnostic::OpenFailed))
        },
        Command::Bind => if ok {
            (Stage::Bound, Command::Operate, None)
        } else {
            (Stage::ShuttingDown, Command::DestroyContext, Some(Diagnostic::BindFailed))
        },
        Command::Operate => if ok {
            (Stage::Running, Command::Operate, None)
        } else {
            (Stage::ShuttingDown, Command::DestroyContext, None)
        },
        Command::DestroyContext => (Stage::Terminated, Command::Finish, None),
        Command::Finish => (Stage::Terminated, Command::Finish, None),
    }
}

fn transition_exec(role: EndpointRole, pending: Command, ok: bool) -> (r: (
    Stage,
    Command,
    Option<Diagnostic>,
))
    ensures
        r == transition(role, pending, ok),
{
    match pending {
        Command::LoadBackend => if ok {
            (Stage::BackendLoaded, Command::CreateContext, None)
        } else {
            (Stage::Terminated, Command::Finish, Some(Diagnostic::LoadFailed))
        },
        Command::CreateContext => if ok {
            (Stage::ContextCreated, Command::Register(EventKind::Open), None)
        } else {
            (Stage::Terminated, Command::Finish, Some(Diagnostic::CreateFailed))
        },
        Command::Register(e) => {
            let diag = if ok {
                None
            } else {
                Some(Diagnostic::RegisterFailed(e))
            };
            match following_event(e) {
                Some(n) => (Stage::ContextCreated, Command::Register(n), diag),
                None => (Stage::CallbacksRegistered, Command::Setup, diag),
            }
        },
        Command::Setup => if !ok {
            (Stage::ShuttingDown, Command::DestroyContext, Some(Diagnostic::SetupFailed))
        } else {
            match role {
                EndpointRole::Client => (Stage::Configured, Command::Open, None),
                EndpointRole::Server => (Stage::Configured, Command::Bind, None),
            }
        },
        Command::Open => if ok {
            (Stage::Connected, Command::Operate, None)
        } else {
            (Stage::ShuttingDown, Command::DestroyContext, Some(Diagnostic::OpenFailed))
        },
        Command::Bind => if ok {
            (Stage::Bound, Command::Operate, None)
        } else {
            (Stage::ShuttingDown, Command::DestroyContext, Some(Diagnostic::BindFailed))
        },
        Command::Operate => if ok {
            (Stage::Running, Command::Operate, None)
        } else {
            (Stage::ShuttingDown, Command::DestroyContext, None)
        },
        Command::DestroyContext => (Stage::Terminated, Command::Finish, None),
        Command::Finish => (Stage::Terminated, Command::Finish, None),
    }
}

/// One endpoint's run, from loading the backend to termination. The caller
/// performs each command that `step` hands out and reports its result; the
/// lifecycle owns the settings descriptor and releases it on every path to
/// termination, after the context is destroyed where one was created.
pub struct Lifecycle {
    role: EndpointRole,
    settings: WsSettings,
    stage: Stage,
    pending: Command,
    events: EventTable,
    context_created: bool,
    configured: bool,
    failure: Option<Diagnostic>,
    released: Vec<BufferField>,
    initial: Ghost<WsSettings>,
    effects: Ghost<Seq<Effect>>,
}

pub open spec fn destroyed() -> Effect {
    Effect::Issued(Command::DestroyContext)
}

impl Lifecycle {
    pub closed spec fn spec_role(&self) -> EndpointRole {
        self.role
    }

    pub closed spec fn spec_settings(&self) -> WsSettings {
        self.settings
    }

    /// The descriptor the run started with.
    pub closed spec fn spec_initial(&self) -> WsSettings {
        self.initial@
    }

    pub closed spec fn spec_stage(&self) -> Stage {
        self.stage
    }

    pub closed spec fn spec_pending(&self) -> Command {
        self.pending
    }

    pub closed spec fn spec_events(&self) -> EventTable {
        self.events
    }

    pub closed spec fn spec_context_created(&self) -> bool {
        self.context_created
    }

    pub closed spec fn spec_failure(&self) -> Option<Diagnostic> {
        self.failure
    }

    pub closed spec fn spec_released(&self) -> Seq<BufferField> {
        self.released@
    }

    /// Everything the run has done so far, in order.
    pub closed spec fn effects(&self) -> Seq<Effect> {
        self.effects@
    }

    pub closed spec fn stage_fits(&self) -> bool {
        match self.pending {
            Command::LoadBackend => self.stage == Stage::Uninitialized,
            Command::CreateContext => self.stage == Stage::BackendLoaded,
            Command::Register(_) => self.stage == Stage::ContextCreated,
            Command::Setup => self.stage == Stage::CallbacksRegistered,
            Command::Open => self.stage == Stage::Configured && self.role == EndpointRole::Client,
            Command::Bind => self.stage == Stage::Configured && self.role == EndpointRole::Server,
            Command::Operate => self.stage == Stage::Connected || self.stage == Stage::Bound
                || self.stage == Stage::Running,
            Command::DestroyContext => self.stage == Stage::ShuttingDown,
            Command::Finish => self.stage == Stage::Terminated,
        }
    }

    pub closed spec fn wf(&self) -> bool {
        let fx = self.effects@;
        &&& fx.len() >= 1
        &&& fx[0] == Effect::Issued(Command::LoadBackend)
        &&& self.stage_fits()
        &&& self.pending != Command::Finish ==> fx.last() == Effect::Issued(self.pending)
        &&& (self.pending is LoadBackend || self.pending is CreateContext) ==> !self.context_created
        &&& !(self.pending is LoadBackend || self.pending is CreateContext || self.pending is Finish)
            ==> self.context_created
        &&& !self.configured ==> forall|i: int|
            0 <= i < fx.len() ==> #[trigger] fx[i] != Effect::Issued(Command::Open) && fx[i]
                != Effect::Issued(Command::Bind)
        &&& (self.pending is LoadBackend || self.pending is CreateContext
            || self.pending is Register || self.pending is Setup) ==> !self.configured
        &&& self.failure == Some(Diagnostic::SetupFailed) ==> !self.configured
        &&& self.pending != Command::DestroyContext && self.pending != Command::Finish
            ==> self.failure is None
        &&& self.failure matches Some(d) ==> d.spec_is_fatal()
        &&& self.pending != Command::DestroyContext && self.pending != Command::Finish
            ==> occurrences(fx, destroyed()) == 0
        &&& self.pending == Command::DestroyContext ==> occurrences(fx, destroyed()) == 1
        &&& self.pending != Command::Finish ==> occurrences(fx, Effect::SettingsReleased) == 0
            && self.settings == self.initial@
        &&& self.pending == Command::Finish ==> {
            &&& occurrences(fx, Effect::SettingsReleased) == 1
            &&& fx.last() == Effect::SettingsReleased
            &&& occurrences(fx, destroyed()) == if self.context_created {
                1nat
            } else {
                0nat
            }
            &&& self.context_created ==> fx.len() >= 2 && fx[fx.len() - 2] == destroyed()
            &&& self.settings.is_zeroed()
            &&& self.released@ == self.initial@.owned_fields()
        }
    }

    /// A run of an endpoint whose role is the descriptor's; the first
    /// command is to load the backend.
    pub fn new(settings: WsSettings) -> (lc: Lifecycle)
        ensures
            lc.wf(),
            lc.spec_role() == settings.endpoint,
            lc.spec_initial() == settings,
            lc.spec_settings() == settings,
            lc.spec_stage() == Stage::Uninitialized,
            lc.spec_pending() == Command::LoadBackend,
            lc.effects() == seq![Effect::Issued(Command::LoadBackend)],
            lc.spec_failure() is None,
            forall|k: EventKind| !lc.spec_events().spec_registered(k),
    {
        let role = settings.endpoint;
        let lc = Lifecycle {
            role,
            settings,
            stage: Stage::Uninitialized,
            pending: Command::LoadBackend,
            events: EventTable::empty(),
            context_created: false,
            configured: false,
            failure: None,
            released: Vec::new(),
            initial: Ghost(settings),
            effects: Ghost(Seq::<Effect>::empty().push(Effect::Issued(Command::LoadBackend))),
        };
        proof {
            assert(lc.effects@ =~= seq![Effect::Issued(Command::LoadBackend)]);
            lemma_occurrences_absent(lc.effects@, destroyed());
            lemma_occurrences_absent(lc.effects@, Effect::SettingsReleased);
        }
        lc
    }
    /// Reports the result of the pending command and returns the next one,
    /// with the diagnostic the transition produces. A failed registration is
    /// reported and the run goes on; a failed setup, open or bind destroys
    /// the context; a pump that says stop shuts the endpoint down. On the
    /// way to termination the settings descriptor is released, once, after
    /// the context was destroyed.
    pub fn step(&mut self, ok: bool) -> (r: (Command, Option<Diagnostic>))
        requires
            old(self).wf(),
        ensures
            final(self).wf(),
            (final(self).spec_stage(), r.0, r.1) == transition(
                old(self).spec_role(),
                old(self).spec_pending(),
                ok,
            ),
            final(self).spec_pending() == r.0,
            final(self).spec_role() == old(self).spec_role(),
            final(self).spec_initial() == old(self).spec_initial(),
            final(self).spec_events() == match old(self).spec_pending() {
                Command::Register(e) => old(self).spec_events().after(e, ok),
                _ => old(self).spec_events(),
            },
            final(self).spec_failure() == match r.1 {
                Some(d) => if d.spec_is_fatal() {
                    Some(d)
                } else {
                    old(self).spec_failure()
                },
                None => old(self).spec_failure(),
            },
            old(self).spec_pending() != Command::Finish && r.0 == Command::Finish
                ==> final(self).effects() == old(self).effects().push(Effect::SettingsReleased),
            r.0 != Command::Finish ==> final(self).effects() == old(self).effects().push(
                Effect::Issued(r.0),
            ),
            old(self).spec_pending() == Command::Finish
                ==> final(self).effects() == old(self).effects(),
    {
        let (stage, cmd, diag) = transition_exec(self.role, self.pending, ok);
        let prev = self.pending;
        let ghost old_fx = self.effects@;
        match prev {
            Command::Register(e) => self.events.record(e, ok),
            Command::CreateContext => {
                if ok {
                    self.context_created = true;
                }
            },
            Command::Setup => {
                if ok {
                    self.configured = true;
                }
            },
            _ => {},
        }
        match diag {
            Some(d) => {
                if d.is_fatal() {
                    self.failure = Some(d);
                }
            },
            None => {},
        }
        if cmd != Command::Finish {
            self.effects = Ghost(self.effects@.push(Effect::Issued(cmd)));
            proof {
                lemma_occurrences_push(old_fx, Effect::Issued(cmd), destroyed());
                lemma_occurrences_push(old_fx, Effect::Issued(cmd), Effect::SettingsReleased);
                let fx = self.effects@;
                assert(fx.last() == Effect::Issued(cmd));
                assert(fx[0] == old_fx[0]);
                if !self.configured {
                    assert forall|i: int| 0 <= i < fx.len() implies #[trigger] fx[i]
                        != Effect::Issued(Command::Open) && fx[i] != Effect::Issued(
                        Command::Bind,
                    ) by {
                        if i < old_fx.len() {
                            assert(fx[i] == old_fx[i]);
                        }
                    }
                }
            }
        } else if prev != Command::Finish {
            self.released = destroy_ws_settings(&mut self.settings);
            self.effects = Ghost(self.effects@.push(Effect::SettingsReleased));
            proof {
                lemma_occurrences_push(old_fx, Effect::SettingsReleased, destroyed());
                lemma_occurrences_push(old_fx, Effect::SettingsReleased, Effect::SettingsReleased);
                let fx = self.effects@;
                assert(fx[0] == old_fx[0]);
                assert(fx[fx.len() - 2] == old_fx.last());
                if !self.configured {
                    assert forall|i: int| 0 <= i < fx.len() implies #[trigger] fx[i]
                        != Effect::Issued(Command::Open) && fx[i] != Effect::Issued(
                        Command::Bind,
                    ) by {
                        if i < old_fx.len() {
                            assert(fx[i] == old_fx[i]);
                        }
                    }
                }
            }
        }
        self.stage = stage;
        self.pending = cmd;
        (cmd, diag)
    }

    pub fn role(&self) -> (r: EndpointRole)
        ensures
            r == self.spec_role(),
    {
        self.role
    }

    /// The descriptor to apply at setup; zeroed once released.
    pub fn settings(&self) -> (s: &WsSettings)
        ensures
            *s == self.spec_settings(),
    {
        &self.settings
    }

    pub fn stage(&self) -> (s: Stage)
        ensures
            s == self.spec_stage(),
    {
        self.stage
    }

    pub fn pending(&self) -> (c: Command)
        ensures
            c == self.spec_pending(),
    {
        self.pending
    }

    pub fn events(&self) -> (t: EventTable)
        ensures
            t == self.spec_events(),
    {
        self.events
    }

    /// The fatal diagnostic that ended the run, if any.
    pub fn failure(&self) -> (f: Option<Diagnostic>)
        ensures
            f == self.spec_failure(),
    {
        self.failure
    }

    /// The buffer fields released with the settings descriptor.
    pub fn released(&self) -> (r: &Vec<BufferField>)
        ensures
            r@ == self.spec_released(),
    {
        &self.released
    }

    /// However the run got there, a terminated endpoint released its
    /// settings exactly once, as the very last thing it did, and destroyed
    /// its context exactly once, just before, if it had created one.
    pub proof fn lemma_cleanup_once_and_in_order(&self)
        requires
            self.wf(),
            self.spec_stage() == Stage::Terminated,
        ensures
            occurrences(self.effects(), Effect::SettingsReleased) == 1,
            self.effects().last() == Effect::SettingsReleased,
            occurrences(self.effects(), destroyed()) == if self.spec_context_created() {
                1nat
            } else {
                0nat
            },
            self.spec_context_created() ==> self.effects()[self.effects().len() - 2]
                == destroyed(),
            self.spec_settings().is_zeroed(),
            self.spec_released() == self.spec_initial().owned_fields(),
    {
    }

    /// Before termination nothing has been released, and the context is
    /// destroyed at most once, as the last command of a shutdown.
    pub proof fn lemma_no_cleanup_before_shutdown(&self)
        requires
            self.wf(),
            self.spec_stage() != Stage::Terminated,
        ensures
            occurrences(self.effects(), Effect::SettingsReleased) == 0,
            self.spec_settings() == self.spec_initial(),
            occurrences(self.effects(), destroyed()) == if self.spec_stage()
                == Stage::ShuttingDown {
                1nat
            } else {
                0nat
            },
    {
    }

    /// A run whose setup failed never opened nor bound a connection.
    pub proof fn lemma_setup_failure_skips_connect(&self)
        requires
            self.wf(),
            self.spec_failure() == Some(Diagnostic::SetupFailed),
        ensures
            forall|i: int|
                0 <= i < self.effects().len() ==> #[trigger] self.effects()[i]
                    != Effect::Issued(Command::Open) && self.effects()[i] != Effect::Issued(
                    Command::Bind,
                ),
    {
    }
}

} // verus!
