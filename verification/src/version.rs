//! Logical server versions and their image references.
//!
//! A version is resolved from its command-line token through a fixed
//! lookup table; an unresolvable token is a fatal configuration error,
//! reported to the caller as `None`.  The container name is derived
//! deterministically from the version, so repeated provisioning of the
//! same version always targets the same instance.

use vstd::prelude::*;
use vstd::string::*;

verus! {

/// The server versions the harness can provision.
#[derive(Clone, Copy, PartialEq, Eq, Structural, Debug)]
pub enum ServerVersion {
    V2017,
    V2019,
    V2022,
    Azure,
}

/// The command-line token that names a version.
pub open spec fn spec_version_token(v: ServerVersion) -> Seq<char> {
    match v {
        ServerVersion::V2017 => "2017"@,
        ServerVersion::V2019 => "2019"@,
        ServerVersion::V2022 => "2022"@,
        ServerVersion::Azure => "azure"@,
    }
}

/// The container image reference a version maps to.
pub open spec fn spec_image_tag(v: ServerVersion) -> Seq<char> {
    match v {
        ServerVersion::V2017 => "mcr.microsoft.com/mssql/server:2017-latest"@,
        ServerVersion::V2019 => "mcr.microsoft.com/mssql/server:2019-latest"@,
        ServerVersion::V2022 => "mcr.microsoft.com/mssql/server:2022-latest"@,
        ServerVersion::Azure => "mcr.microsoft.com/azure-sql-edge"@,
    }
}

/// The deterministic name of the container instance for a version.
pub open spec fn spec_container_name(v: ServerVersion) -> Seq<char> {
    "mssql-"@ + spec_version_token(v)
}

/// The version a token resolves to; `None` for an unsupported token.
pub open spec fn spec_resolve_version(s: Seq<char>) -> Option<ServerVersion> {
    if s == "2017"@ {
        Some(ServerVersion::V2017)
    } else if s == "2019"@ {
        Some(ServerVersion::V2019)
    } else if s == "2022"@ {
        Some(ServerVersion::V2022)
    } else if s == "azure"@ {
        Some(ServerVersion::Azure)
    } else {
        None
    }
}

/// Resolves a command-line token to a version.  `None` is a fatal
/// configuration error: the caller must abort, not retry.
pub fn resolve_version(s: &str) -> (r: Option<ServerVersion>)
    ensures
        r == spec_resolve_version(s@),
{
    let owned = s.to_owned();
    if owned == String::from_str("2017") {
        Some(ServerVersion::V2017)
    } else if owned == String::from_str("2019") {
        Some(ServerVersion::V2019)
    } else if owned == String::from_str("2022") {
        Some(ServerVersion::V2022)
    } else if owned == String::from_str("azure") {
        Some(ServerVersion::Azure)
    } else {
        None
    }
}

/// The version provisioned when the command line names none.
pub fn default_version() -> (r: ServerVersion)
    ensures
        r == ServerVersion::V2019,
{
    ServerVersion::V2019
}

/// The command-line token that names a version.
pub fn version_token(v: ServerVersion) -> (r: &'static str)
    ensures
        r@ == spec_version_token(v),
{
    match v {
        ServerVersion::V2017 => "2017",
        ServerVersion::V2019 => "2019",
        ServerVersion::V2022 => "2022",
        ServerVersion::Azure => "azure",
    }
}

/// The container image reference a version maps to.
pub fn image_tag(v: ServerVersion) -> (r: &'static str)
    ensures
        r@ == spec_image_tag(v),
{
    match v {
        ServerVersion::V2017 => "mcr.microsoft.com/mssql/server:2017-latest",
        ServerVersion::V2019 => "mcr.microsoft.com/mssql/server:2019-latest",
        ServerVersion::V2022 => "mcr.microsoft.com/mssql/server:2022-latest",
        ServerVersion::Azure => "mcr.microsoft.com/azure-sql-edge",
    }
}

/// The deterministic container name for a version.
pub fn container_name(v: ServerVersion) -> (r: String)
    ensures
        r@ == spec_container_name(v),
{
    let mut name = String::from_str("mssql-");
    name.append(version_token(v));
    name
}

} // verus!
