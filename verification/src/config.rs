use vstd::prelude::*;

use crate::constants;

verus! {

/// One registry server; renders to `{scheme}://{address}/{context_path}`.
pub struct ServerConfig {
    pub scheme: String,
    pub address: String,
    pub context_path: String,
}

impl ServerConfig {
    /// The mathematical value of the rendered base URL.
    pub open spec fn spec_url(self) -> Seq<char> {
        self.scheme@ + "://"@ + self.address@ + "/"@ + self.context_path@
    }

    /// Renders the server as the base URL every request is sent to.
    pub fn to_string(&self) -> (r: String)
        ensures
            r@ == self.spec_url(),
    {
        let mut r = self.scheme.clone();
        r.append("://");
        r.append(self.address.as_str());
        r.append("/");
        r.append(self.context_path.as_str());
        proof {
            assert(r@ =~= self.spec_url());
        }
        r
    }

    pub fn new(scheme: String, address: String, context_path: String) -> (r: Self)
        ensures
            r.spec_url() == scheme@ + "://"@ + address@ + "/"@ + context_path@,
    {
        ServerConfig { scheme, address, context_path }
    }
}

/// The immutable configuration a client is constructed with.
pub struct NamingConfig {
    pub namespace_id: String,
    pub cluster: String,
    pub group: String,
    pub server_list: Vec<ServerConfig>,
    pub cache_dir: String,
    pub load_at_start: bool,
    pub update_when_empty: bool,
    pub user_name: Option<String>,
    pub password: Option<String>,
}

impl NamingConfig {
    /// A configuration with every recognized default: namespace `public`,
    /// group `DEFAULT_GROUP`, cluster `DEFAULT`, no credentials, no load at
    /// start, empty updates ignored.
    pub fn new_with_defaults(server_list: Vec<ServerConfig>, cache_dir: String) -> (r: Self)
        ensures
            r.namespace_id@ == constants::DEFAULT_NAMSPACE@,
            r.group@ == constants::DEFAULT_GROUP@,
            r.cluster@ == constants::DEFAULT_CLUSTER@,
            r.server_list@ == server_list@,
            r.cache_dir@ == cache_dir@,
            r.load_at_start == false,
            r.update_when_empty == false,
            r.user_name is None,
            r.password is None,
    {
        NamingConfig {
            namespace_id: constants::DEFAULT_NAMSPACE.to_owned(),
            cluster: constants::DEFAULT_CLUSTER.to_owned(),
            group: constants::DEFAULT_GROUP.to_owned(),
            server_list,
            cache_dir,
            load_at_start: false,
            update_when_empty: false,
            user_name: None,
            password: None,
        }
    }
}

} // verus!
