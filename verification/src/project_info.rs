//! The directory provider: standard per-platform storage locations for an
//! application identity. Pure lookup, consumed by the engine only as a
//! source of paths.

use vstd::prelude::*;

verus! {

/// Implement this to give a type an application identity, from which the
/// standard directories are resolved.
pub trait AppAuthor {
    fn app_name() -> (r: &'static str);

    fn author() -> (r: &'static str);
}

/// The standard per-platform directories resolved for one application.
pub struct ProjectPaths {
    pub config_dir: String,
    pub data_dir: String,
    pub cache_dir: String,
    pub state_dir: Option<String>,
}

/// Relies on directories::ProjectDirs::from: resolves the platform's
/// standard directories for the identity, or nothing when the platform
/// yields no home for them. The result depends on the environment, so
/// nothing more can be promised of it.
#[verifier::external_body]
fn resolve_project_dirs(author: &str, app_name: &str) -> (r: Option<ProjectPaths>) {
    directories::ProjectDirs::from("", author, app_name).map(
        |p| ProjectPaths {
            config_dir: p.config_dir().to_string_lossy().into_owned(),
            data_dir: p.data_dir().to_string_lossy().into_owned(),
            cache_dir: p.cache_dir().to_string_lossy().into_owned(),
            state_dir: p.state_dir().map(|q| q.to_string_lossy().into_owned()),
        },
    )
}

/// Standard directories for any type carrying an application identity.
/// Each call resolves afresh from the environment.
pub trait ProjectInfo: AppAuthor {
    fn project_dirs() -> (r: Option<ProjectPaths>);

    fn config_dir() -> (r: Option<String>);

    fn data_dir() -> (r: Option<String>);

    fn cache_dir() -> (r: Option<String>);

    fn state_dir() -> (r: Option<String>);
}

impl<T: AppAuthor> ProjectInfo for T {
    fn project_dirs() -> (r: Option<ProjectPaths>) {
        resolve_project_dirs(Self::author(), Self::app_name())
    }

    fn config_dir() -> (r: Option<String>) {
        match Self::project_dirs() {
            Some(p) => Some(p.config_dir),
            None => None,
        }
    }

    fn data_dir() -> (r: Option<String>) {
        match Self::project_dirs() {
            Some(p) => Some(p.data_dir),
            None => None,
        }
    }

    fn cache_dir() -> (r: Option<String>) {
        match Self::project_dirs() {
            Some(p) => Some(p.cache_dir),
            None => None,
        }
    }

    fn state_dir() -> (r: Option<String>) {
        match Self::project_dirs() {
            Some(p) => p.state_dir,
            None => None,
        }
    }
}

} // verus!
