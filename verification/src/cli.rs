//! Command-line arguments that the library interprets.

use vstd::prelude::*;

use crate::fox_cloud::Client;
use crate::modbus::ParsedUrl;

verus! {

/// Estimation arguments.
#[derive(Clone, Copy, PartialEq, Eq, Structural, Debug)]
pub struct EstimationArgs {
    pub weight_mode: WeightMode,
}

/// Weighting of the regression samples.
#[derive(Clone, Copy, PartialEq, Eq, Structural, Debug)]
pub enum WeightMode {
    /// Unweighted linear regression.
    Unweighted,
    /// Total energy flow into and out from the battery.
    EnergyFlow,
}

/// Heartbeat arguments.
#[derive(Clone, PartialEq, Eq, Debug)]
pub struct HeartbeatArgs {
    /// Heartbeat URL.
    pub url: Option<String>,
}

/// Sentry arguments.
#[derive(Clone, PartialEq, Eq, Debug)]
pub struct SentryArgs {
    pub sentry_dsn: Option<String>,
}

/// Trace command arguments.
#[derive(Clone, Copy, PartialEq, Eq, Structural, Debug)]
pub struct TraceArgs {}

/// Photovoltaic measurement URLs.
#[derive(Clone, Debug)]
pub struct PvUrls {
    /// Modbus URL for the total PV yield in watt-hours.
    pub total_yield: ParsedUrl,
}

/// Fox ESS Cloud API credentials.
#[derive(Clone, PartialEq, Eq, Debug)]
pub struct FoxCloudApiArgs {
    pub api_key: String,
    pub serial_number: String,
}

/// Fox ESS Cloud connection arguments.
#[derive(Clone, PartialEq, Eq, Debug)]
pub struct FoxCloudConnectionArgs {
    pub api: FoxCloudApiArgs,
    /// Do not push schedules to Fox Cloud: only perform dry runs.
    pub scout: bool,
}

impl FoxCloudConnectionArgs {
    /// The client to push schedules with, or `None` on a dry run.
    pub fn client(self) -> (client: Option<Client>)
        ensures
            self.scout <==> client is None,
            client matches Some(client) ==> client.api_key == self.api.api_key
                && client.serial_number == self.api.serial_number,
    {
        if self.scout {
            None
        } else {
            Some(self.api.client())
        }
    }
}

impl FoxCloudApiArgs {
    /// The client for these credentials.
    pub fn client(self) -> (client: Client)
        ensures
            client.api_key == self.api_key,
            client.serial_number == self.serial_number,
    {
        Client::new(self.api_key, self.serial_number)
    }
}

} // verus!
