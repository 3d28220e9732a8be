//! The file of a project.

use crate::config::{join_path, joined_path, Config};
use vstd::prelude::*;

verus! {

/// Whether a clip goes into the export.
#[derive(Debug, Clone, Copy, PartialEq, Eq, Structural)]
pub enum ClipStatus {
    Pending,
    Included,
    Excluded,
}

impl Default for ClipStatus {
    fn default() -> (s: Self)
        ensures
            s == ClipStatus::Pending,
    {
        ClipStatus::Pending
    }
}

/// The path of the file of a project: `project.json` in its directory.
pub fn get_project_file_path(config: &Config, project_name: &str) -> (r: String)
    ensures
        r@ == joined_path(joined_path(config.output_dir@, project_name@), "project.json"@),
{
    join_path(config.project_dir(project_name).as_str(), "project.json")
}

} // verus!
