use vstd::prelude::*;
use vstd::std_specs::convert::FromSpecImpl;

verus! {

/// What the two backing services answered to a liveness probe.
pub struct HealthCheck {
    pub date_now: String,
    pub ping: String,
}

impl HealthCheck {
    pub fn new(date_now: String, ping: String) -> (check: Self)
        ensures
            check.date_now == date_now,
            check.ping == ping,
    {
        Self { date_now, ping }
    }
}

/// What the health endpoint answers.
#[derive(Debug)]
pub struct HealtCheckResponse {
    pub date_now: String,
    pub ping: String,
}

impl From<HealthCheck> for HealtCheckResponse {
    fn from(healthcheck: HealthCheck) -> (res: Self) {
        Self { date_now: healthcheck.date_now, ping: healthcheck.ping }
    }
}

impl FromSpecImpl<HealthCheck> for HealtCheckResponse {
    open spec fn obeys_from_spec() -> bool {
        true
    }

    open spec fn from_spec(healthcheck: HealthCheck) -> Self {
        HealtCheckResponse { date_now: healthcheck.date_now, ping: healthcheck.ping }
    }
}

} // verus!
