//! Fixed names and values of the configuration.

use vstd::prelude::*;

verus! {

pub const CONFIG_FILE: &'static str = "./config.toml";

/// The configuration version this program reads.
pub const CONFIG_VERSION: u8 = 1;

pub const HOSTS_FILE: &'static str = "./hosts.json";

pub const MAIL_TEMPLATES_FOLDER: &'static str = "./mails/";

pub const ASSETS_FOLDER: &'static str = "./assets/";

/// The email pattern of the HTML standard's `type=email` input.
pub const EMAIL_PATTERN: &'static str = r"^[a-zA-Z0-9.!#$%&'*+/=?^_`{|}~-]+@[a-zA-Z0-9](?:[a-zA-Z0-9-]{0,61}[a-zA-Z0-9])?(?:\.[a-zA-Z0-9](?:[a-zA-Z0-9-]{0,61}[a-zA-Z0-9])?)*$";

} // verus!
