use vstd::prelude::*;

verus! {

/// What the lifecycle runner needs besides the token; fixed for a run.
#[derive(Debug)]
pub struct RunnerConfig {
    /// Directory that receives the certificate files of active things.
    pub certificate_storage: String,
    pub mqtt_host: String,
    pub mqtt_port: u16,
}

impl Clone for RunnerConfig {
    fn clone(&self) -> (r: Self)
        ensures
            r == *self,
    {
        RunnerConfig {
            certificate_storage: self.certificate_storage.clone(),
            mqtt_host: self.mqtt_host.clone(),
            mqtt_port: self.mqtt_port,
        }
    }
}

/// The read-only bundle that one tick hands to every thing: the current
/// user token, if any, and the runner's configuration.
#[derive(Debug)]
pub struct CarePackage {
    pub token_opt: Option<String>,
    pub config: RunnerConfig,
}

} // verus!
