use vstd::prelude::*;
use vstd::std_specs::convert::FromSpecImpl;

verus! {

/// The routing configuration of a tenant: the application that consumes its
/// events, the topic they are republished on, and whether the route is open.
pub struct MerchantConfig {
    pub channel_id: i32,
    pub app_id: i32,
    pub topic: String,
    pub enabled: bool,
    pub token: String,
}

/// A routing configuration as contracts speak of it.
pub struct MerchantConfigView {
    pub channel_id: int,
    pub app_id: int,
    pub topic: Seq<char>,
    pub enabled: bool,
    pub token: Seq<char>,
}

impl View for MerchantConfig {
    type V = MerchantConfigView;

    open spec fn view(&self) -> MerchantConfigView {
        MerchantConfigView {
            channel_id: self.channel_id as int,
            app_id: self.app_id as int,
            topic: self.topic@,
            enabled: self.enabled,
            token: self.token@,
        }
    }
}

impl MerchantConfig {
    pub fn new(channel_id: i32, app_id: i32, topic: String, enabled: bool, token: String) -> (config:
        Self)
        ensures
            config.channel_id == channel_id,
            config.app_id == app_id,
            config.topic == topic,
            config.enabled == enabled,
            config.token == token,
    {
        Self { channel_id, app_id, topic, enabled, token }
    }
}

/// A routing configuration without the tenant's token.
#[derive(Debug)]
pub struct MerchantConfigResponse {
    pub channel_id: i32,
    pub app_id: i32,
    pub topic: String,
    pub enabled: bool,
}

/// A routing configuration with the tenant's token.
#[derive(Debug)]
pub struct MerchantConfigWithTokenResponse {
    pub channel_id: i32,
    pub app_id: i32,
    pub topic: String,
    pub enabled: bool,
    pub token: String,
}

impl From<MerchantConfig> for MerchantConfigResponse {
    fn from(c: MerchantConfig) -> (res: Self) {
        Self { channel_id: c.channel_id, app_id: c.app_id, topic: c.topic, enabled: c.enabled }
    }
}

impl FromSpecImpl<MerchantConfig> for MerchantConfigResponse {
    open spec fn obeys_from_spec() -> bool {
        true
    }

    open spec fn from_spec(c: MerchantConfig) -> Self {
        MerchantConfigResponse {
            channel_id: c.channel_id,
            app_id: c.app_id,
            topic: c.topic,
            enabled: c.enabled,
        }
    }
}

impl From<MerchantConfig> for MerchantConfigWithTokenResponse {
    fn from(c: MerchantConfig) -> (res: Self) {
        Self {
            channel_id: c.channel_id,
            app_id: c.app_id,
            topic: c.topic,
            enabled: c.enabled,
            token: c.token,
        }
    }
}

impl FromSpecImpl<MerchantConfig> for MerchantConfigWithTokenResponse {
    open spec fn obeys_from_spec() -> bool {
        true
    }

    open spec fn from_spec(c: MerchantConfig) -> Self {
        MerchantConfigWithTokenResponse {
            channel_id: c.channel_id,
            app_id: c.app_id,
            topic: c.topic,
            enabled: c.enabled,
            token: c.token,
        }
    }
}

} // verus!
