use vstd::prelude::*;
use vstd::std_specs::convert::FromSpecImpl;

verus! {

/// An application of the registry: the consumer behind a topic of the bus.
pub struct Application {
    pub app_id: String,
    pub app_name: String,
    pub topic: String,
    pub enabled: bool,
}

impl Application {
    pub fn new(app_id: String, app_name: String, topic: String, enabled: bool) -> (app: Self)
        ensures
            app.app_id == app_id,
            app.app_name == app_name,
            app.topic == topic,
            app.enabled == enabled,
    {
        Self { app_id, app_name, topic, enabled }
    }
}

/// What a listing or detail endpoint answers for an application.
#[derive(Debug)]
pub struct ApplicationResponse {
    pub app_id: String,
    pub app_name: String,
    pub topic: String,
    pub enabled: bool,
}

impl From<Application> for ApplicationResponse {
    fn from(app: Application) -> (res: Self) {
        Self { app_id: app.app_id, app_name: app.app_name, topic: app.topic, enabled: app.enabled }
    }
}

impl FromSpecImpl<Application> for ApplicationResponse {
    open spec fn obeys_from_spec() -> bool {
        true
    }

    open spec fn from_spec(app: Application) -> Self {
        ApplicationResponse {
            app_id: app.app_id,
            app_name: app.app_name,
            topic: app.topic,
            enabled: app.enabled,
        }
    }
}

} // verus!
