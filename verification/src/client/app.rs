//! Application information: terms and conditions and the Hydra cycle.
use vstd::prelude::*;
use vstd::string::StringExecFns;

use super::request::ApiRequest;
use super::Api;
use crate::text::concat;

verus! {

/// Client for application information.
pub struct App {
    /// Internal API client.
    pub api: Api,
    /// Base path of the application endpoints.
    pub path_url: String,
}

impl App {
    /// The application client over `api`, rooted at `/app`.
    pub fn new(api: Api) -> (res: Self)
        ensures
            res.api == api,
            res.path_url@ == "/app"@,
    {
        App { api, path_url: String::from_str("/app") }
    }

    /// Request that reads the terms and conditions.
    pub fn get_terms_and_conditions_request(&self) -> (res: ApiRequest)
        ensures
            res.is_plain_get(self.path_url@ + "/terms-and-conditions"@),
    {
        ApiRequest::get(concat(self.path_url.as_str(), "/terms-and-conditions"), None)
    }

    /// Request that reads the current Hydra cycle.
    pub fn get_hydra_cycle_request(&self) -> (res: ApiRequest)
        ensures
            res.is_plain_get(self.path_url@ + "/hydra-cycle"@),
    {
        ApiRequest::get(concat(self.path_url.as_str(), "/hydra-cycle"), None)
    }
}

} // verus!
