use vstd::prelude::*;
use vstd::string::StrSliceExecFns;

verus! {

/// What a pubsub listener is subscribed to: one channel, or every channel matching a pattern.
#[derive(Debug, Clone, PartialEq, Eq, Hash)]
pub enum ChannelSubscription {
    Concrete(String),
    Pattern(String),
}

impl ChannelSubscription {
    /// The channel name or pattern.
    pub open spec fn name(&self) -> Seq<char> {
        match self {
            ChannelSubscription::Concrete(s) => s@,
            ChannelSubscription::Pattern(s) => s@,
        }
    }

    /// Whether this follows a pattern rather than one channel.
    pub fn is_pattern(&self) -> (b: bool)
        ensures
            b <==> self is Pattern,
    {
        match self {
            ChannelSubscription::Concrete(_) => false,
            ChannelSubscription::Pattern(_) => true,
        }
    }

    /// The channel name or pattern.
    pub fn as_str(&self) -> (s: &str)
        ensures
            s@ == self.name(),
    {
        match self {
            ChannelSubscription::Concrete(s) => s.as_str(),
            ChannelSubscription::Pattern(s) => s.as_str(),
        }
    }

    /// How the subscription is named in reports: `pattern '<p>'` or `'<channel>'`.
    pub fn describe(&self) -> (d: String)
        ensures
            d@ == if self is Pattern {
                "pattern '"@ + self.name() + "'"@
            } else {
                "'"@ + self.name() + "'"@
            },
    {
        let mut d = if self.is_pattern() {
            String::from_str("pattern '")
        } else {
            String::from_str("'")
        };
        d.append(self.as_str());
        d.append("'");
        d
    }
}

/// The kinds of push messages redis sends a pubsub connection.
#[derive(Debug, Clone, Copy, PartialEq, Eq)]
pub enum PushKind {
    Subscribe,
    Unsubscribe,
    PSubscribe,
    PUnsubscribe,
    Disconnection,
    Message,
    PMessage,
    /// Anything else redis may push.
    Other,
}

/// How the listener reacts to a push message.
#[derive(Debug, Clone, Copy, PartialEq, Eq)]
pub enum PushReaction {
    /// Confirmations of (un)subscribing need nothing doing.
    Ignore,
    /// The connection dropped: get a new one (which resubscribes everything), retrying
    /// until it succeeds.
    Reconnect,
    /// A message on a channel: pass it to that channel's listeners.
    DeliverToChannel,
    /// A message matching a pattern: pass it to that pattern's listeners.
    DeliverToPattern,
    /// Not expected here: report it.
    Report,
}

/// How the listener reacts to each kind of push message.
pub fn push_reaction(kind: PushKind) -> (r: PushReaction)
    ensures
        r == match kind {
            PushKind::Subscribe | PushKind::Unsubscribe | PushKind::PSubscribe
            | PushKind::PUnsubscribe => PushReaction::Ignore,
            PushKind::Disconnection => PushReaction::Reconnect,
            PushKind::Message => PushReaction::DeliverToChannel,
            PushKind::PMessage => PushReaction::DeliverToPattern,
            PushKind::Other => PushReaction::Report,
        },
{
    match kind {
        PushKind::Subscribe | PushKind::Unsubscribe | PushKind::PSubscribe
        | PushKind::PUnsubscribe => PushReaction::Ignore,
        PushKind::Disconnection => PushReaction::Reconnect,
        PushKind::Message => PushReaction::DeliverToChannel,
        PushKind::PMessage => PushReaction::DeliverToPattern,
        PushKind::Other => PushReaction::Report,
    }
}

/// After a listener is dropped, redis is told to unsubscribe when the subscription has no
/// listeners left (or none was registered).
pub fn should_unsubscribe(listeners_left: Option<usize>) -> (unsub: bool)
    ensures
        unsub <==> match listeners_left {
            Some(n) => n == 0,
            None => true,
        },
{
    match listeners_left {
        Some(n) => n == 0,
        None => true,
    }
}

/// The active connection is reused unless a new one is forced or there is none.
pub fn reuse_connection(force_new: bool, have_active: bool) -> (reuse: bool)
    ensures
        reuse <==> !force_new && have_active,
{
    !force_new && have_active
}

} // verus!
