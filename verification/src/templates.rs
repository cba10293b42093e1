//! The HTML form generated for a host.

use vstd::prelude::*;
use crate::config::structs::{Config, HostConfig, Hosts};
use crate::errors::{fails_with, throw, ErrorKind as EK, ServerError};
use crate::text::cat2;

verus! {

/// What the form page of a host is rendered from.
pub struct FormTemplate<'a> {
    pub config: &'a Config,
    pub hostname: &'a str,
    pub host: &'a HostConfig,
}

/// The form page's data for `host`, if the host exists.
pub fn gen_tpl<'a>(config: &'a Config, hosts: &'a Hosts, host: &str) -> (r: Result<FormTemplate<'a>, ServerError>)
    ensures
        hosts.spec_get(host@) is None ==> fails_with(r, EK::UnknownHost, "no host named "@ + host@),
        hosts.spec_get(host@) is Some ==> (r matches Ok(t) && t.hostname@ == host@ && Some(*t.host)
            == hosts.spec_get(host@) && *t.config == *config),
{
    match hosts.get_key_value(host) {
        Some((host_name, host_config)) => Ok(FormTemplate { config, hostname: host_name.as_str(), host: host_config }),
        None => Err(throw(EK::UnknownHost, cat2("no host named ", host))),
    }
}

} // verus!
