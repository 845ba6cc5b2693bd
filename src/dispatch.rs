use vstd::prelude::*;
use vstd::string::StringExecFns;

use crate::events::{variant_of_tag, subscription_set, Decoded, Variant};
use crate::identity::ObserverPlugin;

verus! {

/// The target of a termination request that addresses every plugin.
pub open spec fn wildcard() -> Seq<char> {
    "*"@
}

/// Whether a termination request with this target addresses the plugin `name`.
pub open spec fn targets(target: Seq<char>, name: Seq<char>) -> bool {
    target == name || target == wildcard()
}

/// How the plugin reacts to a decoded event.
#[derive(Debug, PartialEq, Eq)]
pub enum Reaction {
    /// A known kind: its receipt is recorded.
    Record(Variant),
    /// The event carried no tag.
    NoVariant,
    /// A well-formed event of a kind this plugin does not know, with its tag.
    NotHandled(String),
}

/// The reaction that the dispatch table gives to an event.
pub open spec fn reaction_of(event: Decoded) -> Reaction {
    match event.tag {
        None => Reaction::NoVariant,
        Some(t) => match variant_of_tag(t@) {
            Some(v) => Reaction::Record(v),
            None => Reaction::NotHandled(t),
        },
    }
}

/// Whether an event makes the plugin `name` stop: a termination request whose
/// target addresses it.
pub open spec fn terminates(name: Seq<char>, event: Decoded) -> bool {
    match event.tag {
        Some(t) => variant_of_tag(t@) == Some(Variant::PluginTerminate) && match event.target {
            Some(x) => targets(x@, name),
            None => false,
        },
        None => false,
    }
}

/// The targeting check: true exactly when `target` is `name` or the wildcard.
pub fn is_targeted(target: &String, name: &String) -> (r: bool)
    ensures
        r == targets(target@, name@),
{
    *target == *name || *target == String::from_str("*")
}

impl ObserverPlugin {
    /// The kinds this plugin subscribes to.
    pub fn get_subscriptions(&self) -> (r: Vec<Variant>)
        ensures
            r@ == subscription_set(),
    {
        crate::events::subscriptions()
    }

    /// The dispatch table: how to react to `event`, and whether to stop.
    pub fn dispatch(&self, event: &Decoded) -> (r: (Reaction, bool))
        ensures
            r.0 == reaction_of(*event),
            r.1 == terminates(self.spec_name(), *event),
    {
        match &event.tag {
            None => (Reaction::NoVariant, false),
            Some(t) => match Variant::from_tag(t) {
                Some(v) => {
                    let stop = match v {
                        Variant::PluginTerminate => match &event.target {
                            Some(x) => {
                                let name = self.get_name();
                                is_targeted(x, &name)
                            },
                            None => false,
                        },
                        _ => false,
                    };
                    (Reaction::Record(v), stop)
                },
                None => (Reaction::NotHandled(t.clone()), false),
            },
        }
    }
}

/// Every kind the plugin subscribes to is one the dispatch table records, and
/// every kind the table records is subscribed to.
pub proof fn lemma_subscriptions_match_dispatch(v: Variant)
    ensures
        subscription_set().contains(v),
        variant_of_tag(crate::events::variant_tag(v)) == Some(v),
{
    let s = subscription_set();
    reveal_strlit("NewImageEvent");
    reveal_strlit("ImageReceivedEvent");
    reveal_strlit("ImageScoredEvent");
    reveal_strlit("ImageStoredEvent");
    reveal_strlit("ImageDeletedEvent");
    reveal_strlit("PluginStartedEvent");
    reveal_strlit("PluginTerminatingEvent");
    reveal_strlit("PluginTerminateEvent");
    assert("NewImageEvent"@.len() == 13);
    assert("ImageReceivedEvent"@.len() == 18);
    assert("ImageScoredEvent"@.len() == 16);
    assert("ImageStoredEvent"@.len() == 16);
    assert("ImageDeletedEvent"@.len() == 17);
    assert("PluginStartedEvent"@.len() == 18);
    assert("PluginTerminatingEvent"@.len() == 22);
    assert("PluginTerminateEvent"@.len() == 20);
    assert("ImageReceivedEvent"@[0] != "PluginStartedEvent"@[0]);
    assert("ImageScoredEvent"@[6] != "ImageStoredEvent"@[6]);
    match v {
        Variant::NewImage => assert(s[0] == v),
        Variant::ImageReceived => assert(s[1] == v),
        Variant::ImageScored => assert(s[2] == v),
        Variant::ImageStored => assert(s[3] == v),
        Variant::ImageDeleted => assert(s[4] == v),
        Variant::PluginTerminate => assert(s[5] == v),
        Variant::PluginTerminating => assert(s[6] == v),
        Variant::PluginStarted => assert(s[7] == v),
    }
}

} // verus!
