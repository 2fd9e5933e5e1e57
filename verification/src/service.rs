//! What the server starts, as its configuration tells.
//!
//! The service decides and sets the broker's switches. Starting the servers
//! and the relay clients that it names is left to the caller.

use vstd::prelude::*;
use vstd::string::StringExecFns;

use crate::channels::manager::{BrokerState, ChannelsManager};
use crate::config::{Config, RtmpConfig, RtmpPushConfig, RtmpWebhookConfig};
use crate::text::{decimal, decimal_string};

verus! {

/// The groups of pictures that a stream caches where nothing is configured.
pub const DEFAULT_GOP_NUM: usize = 1;

/// An address and a port as one text: the two with a colon between them.
pub open spec fn endpoint(address: Seq<char>, port: nat) -> Seq<char> {
    address + ":"@ + decimal(port)
}

/// The address on which a server listens on a port, on all interfaces.
pub open spec fn listen_address(port: nat) -> Seq<char> {
    endpoint("0.0.0.0"@, port)
}

/// The endpoints of the push targets that are switched on, in their order.
pub open spec fn push_targets(push: Seq<RtmpPushConfig>) -> Seq<Seq<char>>
    decreases push.len(),
{
    if push.len() == 0 {
        Seq::<Seq<char>>::empty()
    } else if push.last().enabled {
        push_targets(push.drop_last()).push(
            endpoint(push.last().address@, push.last().port as nat),
        )
    } else {
        push_targets(push.drop_last())
    }
}

/// The texts that a run of strings spells, in the same order.
pub open spec fn texts(strings: Seq<String>) -> Seq<Seq<char>> {
    Seq::new(strings.len(), |i: int| strings[i]@)
}

/// The RTMP server to start.
pub struct RtmpServerPlan {
    /// The address to listen on.
    pub address: String,
    pub webhook_config: RtmpWebhookConfig,
}

/// What is to be started for RTMP.
pub struct RtmpPlan {
    /// The servers to which every published stream is pushed.
    pub push_addresses: Vec<String>,
    /// The server from which a stream that nobody publishes is pulled.
    pub pull_address: Option<String>,
    /// The server that takes in sessions; none without webhooks.
    pub server: Option<RtmpServerPlan>,
}

impl RtmpConfig {
    /// The configured number of cached groups, or the default.
    pub open spec fn spec_gop_num(&self) -> usize {
        match self.gop_num {
            Some(n) => n,
            None => DEFAULT_GOP_NUM,
        }
    }

    #[verifier::when_used_as_spec(spec_gop_num)]
    pub fn gop_num(&self) -> (n: usize)
        ensures
            n == self.spec_gop_num(),
    {
        match self.gop_num {
            Some(n) => n,
            None => DEFAULT_GOP_NUM,
        }
    }

    /// The push targets that are switched on.
    pub open spec fn push_targets(&self) -> Seq<Seq<char>> {
        match self.push {
            Some(push) => push_targets(push@),
            None => Seq::<Seq<char>>::empty(),
        }
    }

    /// The pull source, if one is switched on.
    pub open spec fn pull_source(&self) -> Option<Seq<char>> {
        match self.pull {
            Some(pull) => if pull.enabled {
                Some(endpoint(pull.address@, pull.port as nat))
            } else {
                None
            },
            None => None,
        }
    }

    /// The broker's switches after this configuration has been applied.
    pub open spec fn applied(&self, broker: BrokerState) -> BrokerState {
        BrokerState {
            gop_num: self.gop_num() as nat,
            push_enabled: broker.push_enabled || self.push_targets().len() > 0,
            pull_enabled: broker.pull_enabled || self.pull_source() is Some,
            ..broker
        }
    }
}

/// Joins an address and a port.
pub fn join_endpoint(address: &str, port: u32) -> (text: String)
    ensures
        text@ == endpoint(address@, port as nat),
{
    let mut text = String::from_str(address);
    text.append(":");
    let digits = decimal_string(port);
    text.append(digits.as_str());
    text
}

pub struct Service {
    cfg: Config,
}

impl Service {
    /// The configuration that this service follows.
    pub closed spec fn config(&self) -> Config {
        self.cfg
    }

    pub fn new(cfg: Config) -> (service: Self)
        ensures
            service.config() == cfg,
    {
        Service { cfg }
    }

    /// Applies the RTMP part of the configuration to the broker and tells
    /// what is to be started. Nothing is started where RTMP is left out or
    /// switched off.
    pub fn start_rtmp(&self, channel: &mut ChannelsManager) -> (plan: Option<RtmpPlan>)
        ensures
            match self.config().rtmp {
                Some(rtmp) => if rtmp.enabled {
                    &&& final(channel)@ == rtmp.applied(old(channel)@)
                    &&& plan matches Some(p)
                    &&& texts(p.push_addresses@) == rtmp.push_targets()
                    &&& match p.pull_address {
                        Some(address) => rtmp.pull_source() == Some(address@),
                        None => rtmp.pull_source() is None,
                    }
                    &&& match p.server {
                        Some(server) => {
                            &&& server.address@ == listen_address(rtmp.port as nat)
                            &&& rtmp.webhooks == Some(server.webhook_config)
                        },
                        None => rtmp.webhooks is None,
                    }
                } else {
                    final(channel)@ == old(channel)@ && plan is None
                },
                None => final(channel)@ == old(channel)@ && plan is None,
            },
    {
        let ghost before = channel@;
        let rtmp_cfg_value = match &self.cfg.rtmp {
            Some(value) => value,
            None => {
                return None;
            },
        };
        if !rtmp_cfg_value.enabled {
            return None;
        }
        channel.set_rtmp_gop_num(rtmp_cfg_value.gop_num());

        let mut push_addresses: Vec<String> = Vec::new();
        if let Some(push_cfg_values) = &rtmp_cfg_value.push {
            let mut i: usize = 0;
            assert(push_cfg_values@.take(0) =~= Seq::<RtmpPushConfig>::empty());
            while i < push_cfg_values.len()
                invariant
                    i <= push_cfg_values.len(),
                    texts(push_addresses@) == push_targets(push_cfg_values@.take(i as int)),
                    channel@ == (BrokerState {
                        gop_num: rtmp_cfg_value.gop_num() as nat,
                        push_enabled: before.push_enabled || push_addresses@.len() > 0,
                        ..before
                    }),
                decreases push_cfg_values.len() - i,
            {
                let push_value = &push_cfg_values[i];
                proof {
                    assert(push_cfg_values@.take(i + 1).drop_last() =~= push_cfg_values@.take(
                        i as int,
                    ));
                    assert(push_cfg_values@.take(i + 1).last() == push_cfg_values@[i as int]);
                }
                if push_value.enabled {
                    let address = join_endpoint(push_value.address.as_str(), push_value.port as u32);
                    push_addresses.push(address);
                    channel.set_rtmp_push_enabled(true);
                    assert(texts(push_addresses@) =~= push_targets(
                        push_cfg_values@.take(i + 1),
                    ));
                }
                i = i + 1;
            }
            assert(push_cfg_values@.take(i as int) =~= push_cfg_values@);
        }
        let mut pull_address: Option<String> = None;
        if let Some(pull_cfg_value) = &rtmp_cfg_value.pull {
            if pull_cfg_value.enabled {
                pull_address =
                Some(join_endpoint(pull_cfg_value.address.as_str(), pull_cfg_value.port as u32));
                channel.set_rtmp_pull_enabled(true);
            }
        }
        let address = join_endpoint("0.0.0.0", rtmp_cfg_value.port);
        let server = match &rtmp_cfg_value.webhooks {
            Some(webhooks_cfg_value) => Some(
                RtmpServerPlan { address, webhook_config: webhooks_cfg_value.clone() },
            ),
            None => None,
        };
        Some(RtmpPlan { push_addresses, pull_address, server })
    }

    /// Tells on which port the HTTP-FLV server is to listen; none where it
    /// is left out or switched off.
    pub fn start_httpflv(&self) -> (port: Option<u32>)
        ensures
            port == match self.config().httpflv {
                Some(httpflv) => if httpflv.enabled {
                    Some(httpflv.port)
                } else {
                    None
                },
                None => None,
            },
    {
        match &self.cfg.httpflv {
            Some(httpflv_cfg_value) => {
                if !httpflv_cfg_value.enabled {
                    return None;
                }
                Some(httpflv_cfg_value.port)
            },
            None => None,
        }
    }

    /// Tells on which port the HLS server is to listen and has the broker
    /// announce every new stream; nothing where HLS is left out or switched
    /// off.
    pub fn start_hls(&self, channel: &mut ChannelsManager) -> (port: Option<u32>)
        ensures
            match self.config().hls {
                Some(hls) => if hls.enabled {
                    &&& port == Some(hls.port)
                    &&& final(channel)@ == (BrokerState { hls_enabled: true, ..old(channel)@ })
                } else {
                    port is None && final(channel)@ == old(channel)@
                },
                None => port is None && final(channel)@ == old(channel)@,
            },
    {
        match &self.cfg.hls {
            Some(hls_cfg_value) => {
                if !hls_cfg_value.enabled {
                    return None;
                }
                channel.set_hls_enabled(true);
                Some(hls_cfg_value.port)
            },
            None => None,
        }
    }
}

} // verus!
