use vstd::prelude::*;
use vstd::string::StringExecFns;

verus! {

/// The event kinds that this plugin knows.
#[derive(Clone, Copy, Debug, PartialEq, Eq, Structural)]
pub enum Variant {
    NewImage,
    ImageReceived,
    ImageScored,
    ImageStored,
    ImageDeleted,
    PluginStarted,
    PluginTerminating,
    PluginTerminate,
}

/// The tag by which the bus names each kind.
pub open spec fn variant_tag(v: Variant) -> Seq<char> {
    match v {
        Variant::NewImage => "NewImageEvent"@,
        Variant::ImageReceived => "ImageReceivedEvent"@,
        Variant::ImageScored => "ImageScoredEvent"@,
        Variant::ImageStored => "ImageStoredEvent"@,
        Variant::ImageDeleted => "ImageDeletedEvent"@,
        Variant::PluginStarted => "PluginStartedEvent"@,
        Variant::PluginTerminating => "PluginTerminatingEvent"@,
        Variant::PluginTerminate => "PluginTerminateEvent"@,
    }
}

/// The kind that a tag names, if it names one of the known kinds.
pub open spec fn variant_of_tag(tag: Seq<char>) -> Option<Variant> {
    if tag == "NewImageEvent"@ {
        Some(Variant::NewImage)
    } else if tag == "ImageReceivedEvent"@ {
        Some(Variant::ImageReceived)
    } else if tag == "ImageScoredEvent"@ {
        Some(Variant::ImageScored)
    } else if tag == "ImageStoredEvent"@ {
        Some(Variant::ImageStored)
    } else if tag == "ImageDeletedEvent"@ {
        Some(Variant::ImageDeleted)
    } else if tag == "PluginStartedEvent"@ {
        Some(Variant::PluginStarted)
    } else if tag == "PluginTerminatingEvent"@ {
        Some(Variant::PluginTerminating)
    } else if tag == "PluginTerminateEvent"@ {
        Some(Variant::PluginTerminate)
    } else {
        None
    }
}

/// The kinds this plugin subscribes to, in the order it declares them.
pub open spec fn subscription_set() -> Seq<Variant> {
    seq![
        Variant::NewImage,
        Variant::ImageReceived,
        Variant::ImageScored,
        Variant::ImageStored,
        Variant::ImageDeleted,
        Variant::PluginTerminate,
        Variant::PluginTerminating,
        Variant::PluginStarted,
    ]
}

impl Variant {
    /// The tag of this kind.
    pub fn tag(self) -> (r: String)
        ensures
            r@ == variant_tag(self),
    {
        match self {
            Variant::NewImage => String::from_str("NewImageEvent"),
            Variant::ImageReceived => String::from_str("ImageReceivedEvent"),
            Variant::ImageScored => String::from_str("ImageScoredEvent"),
            Variant::ImageStored => String::from_str("ImageStoredEvent"),
            Variant::ImageDeleted => String::from_str("ImageDeletedEvent"),
            Variant::PluginStarted => String::from_str("PluginStartedEvent"),
            Variant::PluginTerminating => String::from_str("PluginTerminatingEvent"),
            Variant::PluginTerminate => String::from_str("PluginTerminateEvent"),
        }
    }

    /// The kind that `tag` names, or `None` for a tag this plugin does not know.
    pub fn from_tag(tag: &String) -> (r: Option<Variant>)
        ensures
            r == variant_of_tag(tag@),
    {
        if *tag == String::from_str("NewImageEvent") {
            Some(Variant::NewImage)
        } else if *tag == String::from_str("ImageReceivedEvent") {
            Some(Variant::ImageReceived)
        } else if *tag == String::from_str("ImageScoredEvent") {
            Some(Variant::ImageScored)
        } else if *tag == String::from_str("ImageStoredEvent") {
            Some(Variant::ImageStored)
        } else if *tag == String::from_str("ImageDeletedEvent") {
            Some(Variant::ImageDeleted)
        } else if *tag == String::from_str("PluginStartedEvent") {
            Some(Variant::PluginStarted)
        } else if *tag == String::from_str("PluginTerminatingEvent") {
            Some(Variant::PluginTerminating)
        } else if *tag == String::from_str("PluginTerminateEvent") {
            Some(Variant::PluginTerminate)
        } else {
            None
        }
    }
}

/// The kinds this plugin subscribes to: every kind it knows, each once.
pub fn subscriptions() -> (r: Vec<Variant>)
    ensures
        r@ == subscription_set(),
{
    let r = vec![
        Variant::NewImage,
        Variant::ImageReceived,
        Variant::ImageScored,
        Variant::ImageStored,
        Variant::ImageDeleted,
        Variant::PluginTerminate,
        Variant::PluginTerminating,
        Variant::PluginStarted,
    ];
    assert(r@ =~= subscription_set());
    r
}

/// An event as the codec hands it over: its tag, if it has one, and the
/// target of a termination request, if it carries one.
#[derive(Debug, PartialEq, Eq)]
pub struct Decoded {
    pub tag: Option<String>,
    pub target: Option<String>,
}

/// What a plugin announces about itself.
#[derive(Clone, Copy, Debug, PartialEq, Eq, Structural)]
pub enum AnnouncementKind {
    Started,
    Terminating,
}

/// An event this plugin publishes about itself, carrying its identity.
#[derive(Debug, PartialEq, Eq)]
pub struct Announcement {
    pub kind: AnnouncementKind,
    pub id: u128,
    pub name: String,
}

} // verus!
