use vstd::prelude::*;

verus! {

pub const DEFAULT_NAMSPACE: &'static str = "public";

pub const DEFAULT_GROUP: &'static str = "DEFAULT_GROUP";

pub const DEFAULT_CLUSTER: &'static str = "DEFAULT";

pub const DEFAULT_SERVER_SCHEMA: &'static str = "http";

/// `{DEFAULT_SERVER_SCHEMA}://ip:port/{DEFAULT_SERVER_CONTEXT}`
pub const DEFAULT_SERVER_CONTEXT: &'static str = "nacos";

pub const DEFAULT_FAILOVER_DIR: &'static str = "nacos/naming/failover";

pub const SERVICE_INFO_SPLITER: &'static str = "@@";

} // verus!
