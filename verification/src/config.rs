//! The configuration of the server.

use vstd::prelude::*;

verus! {

#[derive(Debug)]
pub struct Config {
    pub rtmp: Option<RtmpConfig>,
    pub httpflv: Option<HttpFlvConfig>,
    pub hls: Option<HlsConfig>,
    pub log: Option<LogConfig>,
}

#[derive(Debug)]
pub struct RtmpConfig {
    pub enabled: bool,
    pub port: u32,
    /// How many groups of pictures each stream caches; one where left out.
    pub gop_num: Option<usize>,
    pub pull: Option<RtmpPullConfig>,
    pub push: Option<Vec<RtmpPushConfig>>,
    pub webhooks: Option<RtmpWebhookConfig>,
}

#[derive(Debug)]
pub struct RtmpPullConfig {
    pub enabled: bool,
    pub address: String,
    pub port: u16,
}

#[derive(Debug)]
pub struct RtmpPushConfig {
    pub enabled: bool,
    pub address: String,
    pub port: u16,
}

/// Where the RTMP server reports what sessions do.
#[derive(Debug)]
pub struct RtmpWebhookConfig {
    pub enabled: bool,
    pub url: String,
}

impl Clone for RtmpWebhookConfig {
    fn clone(&self) -> (copy: Self)
        ensures
            copy == *self,
    {
        RtmpWebhookConfig { enabled: self.enabled, url: self.url.clone() }
    }
}

#[derive(Debug, Clone, Copy, PartialEq, Eq, Structural)]
pub struct HttpFlvConfig {
    pub enabled: bool,
    pub port: u32,
}

#[derive(Debug, Clone, Copy, PartialEq, Eq, Structural)]
pub struct HlsConfig {
    pub enabled: bool,
    pub port: u32,
}

#[derive(Debug, Clone, Copy, PartialEq, Eq, Structural)]
pub enum LogLevel {
    Info,
    Warn,
    Error,
    Trace,
    Debug,
}

#[derive(Debug)]
pub struct LogConfig {
    pub level: String,
}

impl Config {
    /// The configuration that the command line gives: each server is
    /// switched on by a port other than zero.
    pub fn new(rtmp_port: u32, httpflv_port: u32, hls_port: u32, log_level: String) -> (config:
        Self)
        ensures
            config.rtmp == (if rtmp_port > 0 {
                Some(
                    RtmpConfig {
                        enabled: true,
                        port: rtmp_port,
                        gop_num: None,
                        pull: None,
                        push: None,
                        webhooks: None,
                    },
                )
            } else {
                None
            }),
            config.httpflv == (if httpflv_port > 0 {
                Some(HttpFlvConfig { enabled: true, port: httpflv_port })
            } else {
                None
            }),
            config.hls == (if hls_port > 0 {
                Some(HlsConfig { enabled: true, port: hls_port })
            } else {
                None
            }),
            config.log == Some(LogConfig { level: log_level }),
    {
        let rtmp = if rtmp_port > 0 {
            Some(
                RtmpConfig {
                    enabled: true,
                    port: rtmp_port,
                    gop_num: None,
                    pull: None,
                    push: None,
                    webhooks: None,
                },
            )
        } else {
            None
        };
        let httpflv = if httpflv_port > 0 {
            Some(HttpFlvConfig { enabled: true, port: httpflv_port })
        } else {
            None
        };
        let hls = if hls_port > 0 {
            Some(HlsConfig { enabled: true, port: hls_port })
        } else {
            None
        };
        Config { rtmp, httpflv, hls, log: Some(LogConfig { level: log_level }) }
    }
}

} // verus!
