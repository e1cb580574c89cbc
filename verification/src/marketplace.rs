//! Names of the marketplaces that DeepSeek curates itself.

use vstd::prelude::*;
use crate::text::str_eq;

verus! {

/// Marketplace curated by DeepSeek.
pub const OPENAI_CURATED_MARKETPLACE_NAME: &'static str = "deepseek-curated";
/// Marketplace of API plugins curated by DeepSeek.
pub const OPENAI_API_CURATED_MARKETPLACE_NAME: &'static str = "deepseek-api-curated";
/// Marketplace bundled with the CLI.
pub const OPENAI_BUNDLED_MARKETPLACE_NAME: &'static str = "deepseek-bundled";

/// Whether `marketplace_name` names one of the curated marketplaces.
pub fn is_deepseek_curated_marketplace_name(marketplace_name: &str) -> (r: bool)
    ensures
        r == (marketplace_name@ == OPENAI_CURATED_MARKETPLACE_NAME@
            || marketplace_name@ == OPENAI_API_CURATED_MARKETPLACE_NAME@),
{
    str_eq(marketplace_name, OPENAI_CURATED_MARKETPLACE_NAME)
        || str_eq(marketplace_name, OPENAI_API_CURATED_MARKETPLACE_NAME)
}

} // verus!
