//! The roles in which a session subscribes to a stream.

use vstd::prelude::*;

verus! {

#[derive(Clone, Copy, Debug, PartialEq, Eq, Structural)]
pub enum SubscribeType {
    PlayerRtmp,
    PlayerHttpFlv,
    PlayerHls,
    PublisherRtmp,
}

impl SubscribeType {
    /// Whether the role is one of the player roles. A player is served the
    /// cached history when it joins; a publisher role is not.
    pub open spec fn spec_is_player(self) -> bool {
        self != SubscribeType::PublisherRtmp
    }

    #[verifier::when_used_as_spec(spec_is_player)]
    pub fn is_player(self) -> (yes: bool)
        ensures
            yes == self.spec_is_player(),
    {
        match self {
            SubscribeType::PlayerRtmp | SubscribeType::PlayerHttpFlv | SubscribeType::PlayerHls => true,
            SubscribeType::PublisherRtmp => false,
        }
    }
}

} // verus!
