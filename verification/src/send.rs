//! Routing an outbound message to one of the configured channels.
use vstd::prelude::*;
use crate::text::{joined, lowercase, owned, same_text, to_lowercase};

verus! {

/// A request to send a message through a channel.
pub struct SendRequest {
    pub channel: String,
    pub target: String,
    pub message: String,
    pub subject: Option<String>,
}

/// The channels a message can go out through.
#[derive(Clone, Copy, Debug, PartialEq, Eq, Structural)]
pub enum ChannelKind {
    WhatsApp,
    Linq,
    NextcloudTalk,
    Wati,
}

/// Which channels are configured.
pub struct ConfiguredChannels {
    pub whatsapp: bool,
    pub linq: bool,
    pub nextcloud_talk: bool,
    pub wati: bool,
}

/// Whether the channel `k` is configured.
pub open spec fn is_configured(c: ConfiguredChannels, k: ChannelKind) -> bool {
    match k {
        ChannelKind::WhatsApp => c.whatsapp,
        ChannelKind::Linq => c.linq,
        ChannelKind::NextcloudTalk => c.nextcloud_talk,
        ChannelKind::Wati => c.wati,
    }
}

/// The channel a lowercase channel name names, if any.
pub open spec fn channel_named(name: Seq<char>) -> Option<ChannelKind> {
    if name == "whatsapp"@ {
        Some(ChannelKind::WhatsApp)
    } else if name == "linq"@ {
        Some(ChannelKind::Linq)
    } else if name == "nextcloud_talk"@ || name == "nextcloud-talk"@ {
        Some(ChannelKind::NextcloudTalk)
    } else if name == "wati"@ {
        Some(ChannelKind::Wati)
    } else {
        None
    }
}

/// The name a channel is reported under.
pub open spec fn channel_label(k: ChannelKind) -> Seq<char> {
    match k {
        ChannelKind::WhatsApp => "whatsapp"@,
        ChannelKind::Linq => "linq"@,
        ChannelKind::NextcloudTalk => "nextcloud_talk"@,
        ChannelKind::Wati => "wati"@,
    }
}

/// The error of a channel that is not configured.
pub open spec fn not_configured_message(k: ChannelKind) -> Seq<char> {
    match k {
        ChannelKind::WhatsApp => "WhatsApp channel not configured"@,
        ChannelKind::Linq => "Linq channel not configured"@,
        ChannelKind::NextcloudTalk => "Nextcloud Talk channel not configured"@,
        ChannelKind::Wati => "WATI channel not configured"@,
    }
}

/// The error of a channel name that names no channel.
pub open spec fn unknown_channel_message(name: Seq<char>) -> Seq<char> {
    "Unknown channel '"@ + name + "'. Available: whatsapp, linq, nextcloud_talk, wati"@
}

impl ChannelKind {
    /// The name the channel is reported under.
    pub fn label(&self) -> (r: &'static str)
        ensures
            r@ == channel_label(*self),
    {
        match self {
            ChannelKind::WhatsApp => "whatsapp",
            ChannelKind::Linq => "linq",
            ChannelKind::NextcloudTalk => "nextcloud_talk",
            ChannelKind::Wati => "wati",
        }
    }
}

/// `r` is the answer to routing a message to the lowercase channel name
/// `name` with the channels `configured`: the channel the name names where
/// that channel is configured, else the error to answer.
pub open spec fn routed(name: Seq<char>, configured: ConfiguredChannels, r: Result<ChannelKind, String>) -> bool {
    match channel_named(name) {
        Some(k) => if is_configured(configured, k) {
            r == Ok::<ChannelKind, String>(k)
        } else {
            r matches Err(m) && m@ == not_configured_message(k)
        },
        None => r matches Err(m) && m@ == unknown_channel_message(name),
    }
}

/// Each channel name routes to its channel exactly when that channel's own
/// setting is on: `whatsapp` by `whatsapp`, `linq` by `linq`,
/// `nextcloud_talk` and `nextcloud-talk` by `nextcloud_talk`, `wati` by
/// `wati`; any other name routes nowhere.
pub proof fn lemma_route_by_own_setting(name: Seq<char>, c: ConfiguredChannels, r: Result<ChannelKind, String>)
    requires
        routed(name, c, r),
    ensures
        name == "whatsapp"@ ==> (r == Ok::<ChannelKind, String>(ChannelKind::WhatsApp) <==> c.whatsapp),
        name == "linq"@ ==> (r == Ok::<ChannelKind, String>(ChannelKind::Linq) <==> c.linq),
        name == "nextcloud_talk"@ || name == "nextcloud-talk"@
            ==> (r == Ok::<ChannelKind, String>(ChannelKind::NextcloudTalk) <==> c.nextcloud_talk),
        name == "wati"@ ==> (r == Ok::<ChannelKind, String>(ChannelKind::Wati) <==> c.wati),
        r is Ok ==> name == "whatsapp"@ || name == "linq"@ || name == "nextcloud_talk"@ || name == "nextcloud-talk"@
            || name == "wati"@,
{
    reveal_strlit("whatsapp");
    reveal_strlit("linq");
    reveal_strlit("nextcloud_talk");
    reveal_strlit("nextcloud-talk");
    reveal_strlit("wati");
    assert("whatsapp"@[0] != "linq"@[0]);
    assert("whatsapp"@[0] != "nextcloud_talk"@[0]);
    assert("whatsapp"@[0] != "nextcloud-talk"@[0]);
    assert("whatsapp"@[1] != "wati"@[1]);
    assert("linq"@[0] != "nextcloud_talk"@[0]);
    assert("linq"@[0] != "nextcloud-talk"@[0]);
    assert("linq"@[0] != "wati"@[0]);
    assert("nextcloud_talk"@[0] != "wati"@[0]);
    assert("nextcloud-talk"@[0] != "wati"@[0]);
}

/// The channel that the lowercase channel name `name` names, where that
/// channel is configured; else the error to answer.
pub fn route_lowercase_channel(name: &str, configured: &ConfiguredChannels) -> (r: Result<ChannelKind, String>)
    ensures
        routed(name@, *configured, r),
        name@ == "whatsapp"@ ==> (r == Ok::<ChannelKind, String>(ChannelKind::WhatsApp) <==> configured.whatsapp),
        name@ == "linq"@ ==> (r == Ok::<ChannelKind, String>(ChannelKind::Linq) <==> configured.linq),
        name@ == "nextcloud_talk"@ || name@ == "nextcloud-talk"@
            ==> (r == Ok::<ChannelKind, String>(ChannelKind::NextcloudTalk) <==> configured.nextcloud_talk),
        name@ == "wati"@ ==> (r == Ok::<ChannelKind, String>(ChannelKind::Wati) <==> configured.wati),
{
    let kind = if same_text(name, "whatsapp") {
        ChannelKind::WhatsApp
    } else if same_text(name, "linq") {
        ChannelKind::Linq
    } else if same_text(name, "nextcloud_talk") || same_text(name, "nextcloud-talk") {
        ChannelKind::NextcloudTalk
    } else if same_text(name, "wati") {
        ChannelKind::Wati
    } else {
        let mut m = joined("Unknown channel '", name);
        m.append("'. Available: whatsapp, linq, nextcloud_talk, wati");
        return Err(m);
    };
    let ok = match kind {
        ChannelKind::WhatsApp => configured.whatsapp,
        ChannelKind::Linq => configured.linq,
        ChannelKind::NextcloudTalk => configured.nextcloud_talk,
        ChannelKind::Wati => configured.wati,
    };
    let r = if ok {
        Ok(kind)
    } else {
        Err(owned(match kind {
            ChannelKind::WhatsApp => "WhatsApp channel not configured",
            ChannelKind::Linq => "Linq channel not configured",
            ChannelKind::NextcloudTalk => "Nextcloud Talk channel not configured",
            ChannelKind::Wati => "WATI channel not configured",
        }))
    };
    proof {
        lemma_route_by_own_setting(name@, *configured, r);
    }
    r
}

/// The channel a request names, by its name in lowercase, where that channel
/// is configured; else the error to answer.
pub fn route_channel(channel: &str, configured: &ConfiguredChannels) -> (r: Result<ChannelKind, String>)
    ensures
        routed(lowercase(channel@), *configured, r),
{
    let name = to_lowercase(channel);
    route_lowercase_channel(name.as_str(), configured)
}

/// The answer to a send: the channel's name where the channel sent the
/// message, else the channel's error text.
pub fn send_outcome(kind: ChannelKind, sent: Result<(), String>) -> (r: Result<&'static str, String>)
    ensures
        match sent {
            Ok(()) => r matches Ok(label) && label@ == channel_label(kind),
            Err(e) => r == Err::<&'static str, String>(e),
        },
{
    match sent {
        Ok(()) => Ok(kind.label()),
        Err(e) => Err(e),
    }
}

} // verus!
