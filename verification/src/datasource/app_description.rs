//! The application's own description: static text, read from nowhere.

use crate::config::AppDescConfig;
use crate::prompt::PromptData;
use crate::text::texts;
use vstd::prelude::*;
use vstd::string::StringExecFns;

verus! {

/// The two description lines of an application description.
pub open spec fn description_of(config: AppDescConfig) -> Seq<Seq<char>> {
    seq!["Information: [App Description]"@, config.description@]
}

/// The block of an application description: a fixed header and the configured
/// text, and no table.
pub fn fetch_data(config: &AppDescConfig) -> (r: PromptData)
    ensures
        texts(r.description@) == description_of(*config),
        r.data is None,
{
    let mut description: Vec<String> = Vec::new();
    description.push(String::from_str("Information: [App Description]"));
    description.push(config.description.clone());
    PromptData { description, data: None }
}

} // verus!
