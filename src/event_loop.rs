use vstd::prelude::*;

use crate::dispatch::{reaction_of, terminates, Reaction};
use crate::events::{Announcement, AnnouncementKind, Decoded};
use crate::identity::{hyphenated_text, ObserverPlugin};

verus! {

/// Where the plugin's lifecycle stands.
#[derive(Clone, Copy, Debug, PartialEq, Eq, Structural)]
pub enum Phase {
    /// The startup announcement is still to be published.
    Starting,
    /// Receiving and dispatching events.
    Running,
    /// The shutdown announcement is still to be published.
    Terminating,
    /// The loop has ended.
    Stopped,
}

/// Why publishing an announcement failed.
#[derive(Debug, PartialEq, Eq)]
pub enum PublishFailure {
    /// The codec could not encode the event.
    Encode(String),
    /// The publish channel refused the bytes.
    Send(String),
}

impl PublishFailure {
    /// An equal failure, one for the log and one for the caller.
    pub fn copy(&self) -> (r: PublishFailure)
        ensures
            r == *self,
    {
        match self {
            PublishFailure::Encode(m) => PublishFailure::Encode(m.clone()),
            PublishFailure::Send(m) => PublishFailure::Send(m.clone()),
        }
    }
}

/// What one receive on the subscribe channel produced.
#[derive(Debug, PartialEq, Eq)]
pub enum Inbound {
    /// The transport reported an error.
    RecvFailed(String),
    /// The codec could not decode the payload.
    Malformed(String),
    /// A decoded event.
    Event(Decoded),
}

/// What the host hands back to the loop: the result of the action it was given.
#[derive(Debug, PartialEq, Eq)]
pub enum Input {
    /// The outcome of a publish attempt.
    Published(Result<(), PublishFailure>),
    /// The outcome of a receive.
    Received(Inbound),
}

/// What the host is to do next.
#[derive(Debug, PartialEq, Eq)]
pub enum Action {
    /// Encode and publish this announcement, then report the outcome.
    Publish(Announcement),
    /// Receive one message and report it.
    Receive,
    /// Leave the loop.
    Exit,
}

/// What a step observed: each becomes one log line naming the plugin.
#[derive(Debug, PartialEq, Eq)]
pub enum Note {
    Started,
    StartupFailed(PublishFailure),
    RecvFailed(String),
    Malformed(String),
    Handled(Reaction),
    Terminated,
    ShutdownUnannounced(PublishFailure),
}

/// The failure that keeps the plugin from entering its loop.
#[derive(Debug, PartialEq, Eq)]
pub struct StartupFailure {
    pub name: String,
    pub id: String,
    pub reason: PublishFailure,
}

/// Whether `input` answers the action that `phase` asks for.
pub open spec fn accepts(phase: Phase, input: Input) -> bool {
    match phase {
        Phase::Starting | Phase::Terminating => input is Published,
        Phase::Running => input is Received,
        Phase::Stopped => false,
    }
}

/// The phase after `input`, for the plugin named `name`.
pub open spec fn next_phase(name: Seq<char>, phase: Phase, input: Input) -> Phase {
    match phase {
        Phase::Starting => match input {
            Input::Published(Ok(())) => Phase::Running,
            _ => Phase::Stopped,
        },
        Phase::Running => match input {
            Input::Received(Inbound::Event(e)) => if terminates(name, e) {
                Phase::Terminating
            } else {
                Phase::Running
            },
            _ => Phase::Running,
        },
        Phase::Terminating | Phase::Stopped => Phase::Stopped,
    }
}

/// What is noted when `input` arrives in `phase`.
pub open spec fn note_of(phase: Phase, input: Input) -> Note {
    match input {
        Input::Published(Ok(())) => if phase == Phase::Starting {
            Note::Started
        } else {
            Note::Terminated
        },
        Input::Published(Err(f)) => if phase == Phase::Starting {
            Note::StartupFailed(f)
        } else {
            Note::ShutdownUnannounced(f)
        },
        Input::Received(Inbound::RecvFailed(m)) => Note::RecvFailed(m),
        Input::Received(Inbound::Malformed(m)) => Note::Malformed(m),
        Input::Received(Inbound::Event(e)) => Note::Handled(reaction_of(e)),
    }
}

/// Whether `a` publishes an announcement of `kind` carrying `plugin`'s identity.
pub open spec fn announces(a: Action, kind: AnnouncementKind, plugin: ObserverPlugin) -> bool {
    match a {
        Action::Publish(ann) => ann.kind == kind && ann.id == plugin.spec_id() && ann.name@
            == plugin.spec_name(),
        _ => false,
    }
}

/// The action that `phase` asks of the host.
pub open spec fn action_fits(a: Action, phase: Phase, plugin: ObserverPlugin) -> bool {
    match phase {
        Phase::Starting => announces(a, AnnouncementKind::Started, plugin),
        Phase::Running => a is Receive,
        Phase::Terminating => announces(a, AnnouncementKind::Terminating, plugin),
        Phase::Stopped => a is Exit,
    }
}

/// The plugin's event loop, as a state machine that the host drives: the host
/// performs `pending()` and hands the outcome to `next`.
pub struct EventLoop {
    plugin: ObserverPlugin,
    phase: Phase,
    failure: Option<PublishFailure>,
}

impl EventLoop {
    pub closed spec fn spec_plugin(&self) -> ObserverPlugin {
        self.plugin
    }

    pub closed spec fn spec_phase(&self) -> Phase {
        self.phase
    }

    pub closed spec fn spec_failure(&self) -> Option<PublishFailure> {
        self.failure
    }

    /// A loop for `plugin`, about to announce its start.
    pub fn new(plugin: ObserverPlugin) -> (r: EventLoop)
        ensures
            r.spec_plugin() == plugin,
            r.spec_phase() == Phase::Starting,
            r.spec_failure() is None,
    {
        EventLoop { plugin, phase: Phase::Starting, failure: None }
    }

    /// The plugin this loop runs.
    pub fn plugin(&self) -> (r: &ObserverPlugin)
        ensures
            *r == self.spec_plugin(),
    {
        &self.plugin
    }

    /// The current phase.
    pub fn phase(&self) -> (r: Phase)
        ensures
            r == self.spec_phase(),
    {
        self.phase
    }

    fn announcement(&self, kind: AnnouncementKind) -> (r: Announcement)
        ensures
            r.kind == kind,
            r.id == self.plugin.spec_id(),
            r.name@ == self.plugin.spec_name(),
    {
        Announcement { kind, id: self.plugin.get_id(), name: self.plugin.get_name() }
    }

    /// What the host is to do next.
    pub fn pending(&self) -> (r: Action)
        ensures
            action_fits(r, self.spec_phase(), self.spec_plugin()),
    {
        match self.phase {
            Phase::Starting => Action::Publish(self.announcement(AnnouncementKind::Started)),
            Phase::Running => Action::Receive,
            Phase::Terminating => Action::Publish(self.announcement(AnnouncementKind::Terminating)),
            Phase::Stopped => Action::Exit,
        }
    }

    /// One transition: takes the outcome of the pending action, moves to the
    /// next phase, and says what to log.
    pub fn next(&mut self, input: Input) -> (r: Note)
        requires
            accepts(old(self).spec_phase(), input),
        ensures
            final(self).spec_plugin() == old(self).spec_plugin(),
            final(self).spec_phase() == next_phase(
                old(self).spec_plugin().spec_name(),
                old(self).spec_phase(),
                input,
            ),
            r == note_of(old(self).spec_phase(), input),
            final(self).spec_failure() == (match (old(self).spec_phase(), input) {
                (Phase::Starting, Input::Published(Err(f))) => Some(f),
                _ => old(self).spec_failure(),
            }),
    {
        match input {
            Input::Published(Ok(())) => {
                if self.phase == Phase::Starting {
                    self.phase = Phase::Running;
                    Note::Started
                } else {
                    self.phase = Phase::Stopped;
                    Note::Terminated
                }
            },
            Input::Published(Err(f)) => {
                if self.phase == Phase::Starting {
                    self.phase = Phase::Stopped;
                    let logged = f.copy();
                    self.failure = Some(f);
                    Note::StartupFailed(logged)
                } else {
                    self.phase = Phase::Stopped;
                    Note::ShutdownUnannounced(f)
                }
            },
            Input::Received(Inbound::RecvFailed(m)) => Note::RecvFailed(m),
            Input::Received(Inbound::Malformed(m)) => Note::Malformed(m),
            Input::Received(Inbound::Event(e)) => {
                let (reaction, stop) = self.plugin.dispatch(&e);
                if stop {
                    self.phase = Phase::Terminating;
                }
                Note::Handled(reaction)
            },
        }
    }

    /// The loop's result once it has stopped: the startup failure, if there
    /// was one, with the plugin's name and id; otherwise success.
    pub fn finish(self) -> (r: Result<(), StartupFailure>)
        requires
            self.spec_phase() == Phase::Stopped,
        ensures
            match self.spec_failure() {
                None => r is Ok,
                Some(f) => r is Err && r->Err_0.name@ == self.spec_plugin().spec_name()
                    && r->Err_0.id@ == hyphenated_text(self.spec_plugin().spec_id())
                    && r->Err_0.reason == f,
            },
    {
        let name = self.plugin.get_name();
        let id = self.plugin.id_text();
        match self.failure {
            None => Ok(()),
            Some(reason) => Err(StartupFailure { name, id, reason }),
        }
    }
}

/// The startup announcement comes first and only once: a new loop asks to
/// publish it, the starting phase takes nothing but the outcome of that
/// publish, the loop runs only after it succeeded, and no step goes back to
/// the starting phase.
pub proof fn lemma_startup_before_loop(plugin: ObserverPlugin, a: Action, phase: Phase, input: Input)
    ensures
        action_fits(a, Phase::Starting, plugin) ==> announces(a, AnnouncementKind::Started, plugin),
        accepts(Phase::Starting, input) ==> input is Published,
        accepts(phase, input) ==> next_phase(plugin.spec_name(), phase, input) != Phase::Starting,
        accepts(Phase::Starting, input) ==> (next_phase(plugin.spec_name(), Phase::Starting, input)
            == Phase::Running <==> input is Published && input->Published_0 is Ok),
        accepts(phase, input) && next_phase(plugin.spec_name(), phase, input) == Phase::Running
            ==> phase == Phase::Starting || phase == Phase::Running,
{
}

/// A malformed payload or a transport error while running is noted and
/// dropped: the loop keeps running, and the next event is dispatched as usual.
pub proof fn lemma_drop_not_crash(name: Seq<char>, bad: Inbound, event: Decoded)
    requires
        !(bad is Event),
        event.tag is Some,
        crate::events::variant_of_tag(event.tag->Some_0@) is Some,
        !terminates(name, event),
    ensures
        next_phase(name, Phase::Running, Input::Received(bad)) == Phase::Running,
        match bad {
            Inbound::Malformed(m) => note_of(Phase::Running, Input::Received(bad))
                == Note::Malformed(m),
            Inbound::RecvFailed(m) => note_of(Phase::Running, Input::Received(bad))
                == Note::RecvFailed(m),
            Inbound::Event(_) => false,
        },
        next_phase(name, Phase::Running, Input::Received(Inbound::Event(event))) == Phase::Running,
        note_of(Phase::Running, Input::Received(Inbound::Event(event))) == Note::Handled(
            Reaction::Record(crate::events::variant_of_tag(event.tag->Some_0@)->Some_0),
        ),
{
}

/// An event whose tag names no kind the plugin knows, or that has no tag, is
/// noted and the loop keeps running.
pub proof fn lemma_unknown_variant_tolerated(name: Seq<char>, event: Decoded)
    requires
        event.tag is None || crate::events::variant_of_tag(event.tag->Some_0@) is None,
    ensures
        next_phase(name, Phase::Running, Input::Received(Inbound::Event(event))) == Phase::Running,
        note_of(Phase::Running, Input::Received(Inbound::Event(event))) == Note::Handled(
            match event.tag {
                None => Reaction::NoVariant,
                Some(t) => Reaction::NotHandled(t),
            },
        ),
{
}

/// Termination publishes exactly one shutdown announcement: only a running
/// loop enters the terminating phase, which asks to publish that announcement
/// and, whatever the outcome of the publish, is followed by the stopped
/// phase, which takes no further input and asks only to exit.
pub proof fn lemma_single_shutdown_announcement(plugin: ObserverPlugin, a: Action, phase: Phase, input: Input)
    ensures
        action_fits(a, Phase::Terminating, plugin) ==> announces(a, AnnouncementKind::Terminating, plugin),
        accepts(Phase::Terminating, input) ==> next_phase(plugin.spec_name(), Phase::Terminating, input)
            == Phase::Stopped,
        !accepts(Phase::Stopped, input),
        action_fits(a, Phase::Stopped, plugin) ==> a is Exit,
        accepts(phase, input) && next_phase(plugin.spec_name(), phase, input) == Phase::Terminating
            ==> phase == Phase::Running,
{
}

/// A termination request stops a running loop exactly when its target is the
/// plugin's name or the wildcard.
pub proof fn lemma_termination_targeting(name: Seq<char>, tag: String, target: String)
    requires
        crate::events::variant_of_tag(tag@) == Some(crate::events::Variant::PluginTerminate),
    ensures
        ({
            let e = Decoded { tag: Some(tag), target: Some(target) };
            next_phase(name, Phase::Running, Input::Received(Inbound::Event(e))) == Phase::Terminating
                <==> (target@ == name || target@ == crate::dispatch::wildcard())
        }),
{
}

} // verus!
