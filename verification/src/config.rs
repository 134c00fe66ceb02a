//! Where each program finds its configuration: the `.env` file, read at
//! start-up, and the web front end's page templates. Both depend on whether
//! the program runs in its Docker image (`CONFIG_LOCATION=docker`).

use vstd::prelude::*;
use vstd::string::*;
use crate::text::{same_text, text_or};

verus! {

/// The value `CONFIG_LOCATION` takes when it is not set.
pub open spec fn default_config_location() -> Seq<char> {
    "not_docker"@
}

/// The configuration location named by the Docker image.
pub open spec fn docker_location() -> Seq<char> {
    "docker"@
}

/// What `ENV_FILE_VERSION` reads as when the `.env` file set none.
pub open spec fn env_file_version_unknown() -> Seq<char> {
    ".env not loaded"@
}

/// The configuration location: the value of `CONFIG_LOCATION`, or
/// `not_docker` when it is not set.
pub fn config_location(value: Option<&str>) -> (location: String)
    ensures
        location@ == match value {
            Some(v) => v@,
            None => default_config_location(),
        },
{
    text_or(value, "not_docker")
}

/// The path of the `.env` file: `.env` in the Docker image, otherwise the
/// `.env` file in the package's directory.
pub fn dot_env_path(location: &str, package_name: &str) -> (path: String)
    ensures
        path@ == if location@ == docker_location() {
            ".env"@
        } else {
            package_name@ + "/.env"@
        },
{
    if same_text(location, "docker") {
        String::from_str(".env")
    } else {
        let mut path = String::from_str(package_name);
        path.append("/.env");
        path
    }
}

/// The version of the `.env` file that was loaded: the value of
/// `ENV_FILE_VERSION`, or `.env not loaded`.
pub fn env_file_version(value: Option<&str>) -> (version: String)
    ensures
        version@ == match value {
            Some(v) => v@,
            None => env_file_version_unknown(),
        },
{
    text_or(value, ".env not loaded")
}

/// The directory of the web front end's page templates: `./static/templates`
/// in the Docker image, otherwise `static/templates` under the package's
/// manifest directory.
pub fn templates_path(location: &str, manifest_dir: &str) -> (path: String)
    ensures
        path@ == if location@ == docker_location() {
            "./static/templates"@
        } else {
            manifest_dir@ + "/static/templates"@
        },
{
    if same_text(location, "docker") {
        String::from_str("./static/templates")
    } else {
        let mut path = String::from_str(manifest_dir);
        path.append("/static/templates");
        path
    }
}

} // verus!
