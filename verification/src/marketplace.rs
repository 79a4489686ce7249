//! Marketplace data model and its security checks: what items look like,
//! and what is verified before anything is installed. Downloading, unpacking and
//! network search live in the surrounding application.

use vstd::prelude::*;
use std::collections::HashMap;

use crate::error::WarpError;

verus! {

/// The kinds of items the marketplace carries.
#[derive(Clone, Copy, Debug, PartialEq, Eq, Hash, Structural)]
pub enum ItemCategory {
    Themes,
    Plugins,
    AIModels,
    Keysets,
    Workflows,
    Scripts,
    Extensions,
}

/// Kind-specific metadata of a theme item.
#[derive(Clone, Debug, PartialEq)]
pub struct ThemeMetadata {
    pub color_scheme: String,
    pub supports_dark_mode: bool,
    pub supports_light_mode: bool,
    pub accent_colors: Vec<String>,
    pub preview_images: Vec<String>,
}

/// Kind-specific metadata of a plugin item.
#[derive(Clone, Debug, PartialEq)]
pub struct PluginMetadata {
    pub entry_point: String,
    pub permissions: Vec<String>,
    pub dependencies: Vec<String>,
    pub supported_platforms: Vec<String>,
    pub api_version: String,
}

/// Kind-specific metadata of a model item.
#[derive(Clone, Debug, PartialEq)]
pub struct AIModelMetadata {
    pub model_type: String,
    pub provider: String,
    pub capabilities: Vec<String>,
    pub context_length: u32,
    pub parameters: u64,
    pub languages: Vec<String>,
}

/// Kind-specific metadata of a keyset item.
#[derive(Clone, Debug, PartialEq)]
pub struct KeysetMetadata {
    pub editor_style: String,
    pub supported_shells: Vec<String>,
    pub key_count: u32,
}

/// Kind-specific metadata of a workflow item.
#[derive(Clone, Debug, PartialEq)]
pub struct WorkflowMetadata {
    pub triggers: Vec<String>,
    pub actions: Vec<String>,
    pub complexity: String,
}

/// Kind-specific metadata of a script item.
#[derive(Clone, Debug, PartialEq)]
pub struct ScriptMetadata {
    pub language: String,
    pub runtime_requirements: Vec<String>,
    pub script_type: String,
}

/// An item's kind together with its kind-specific metadata.
#[derive(Clone, Debug, PartialEq)]
pub enum ItemType {
    Theme(ThemeMetadata),
    Plugin(PluginMetadata),
    AIModel(AIModelMetadata),
    Keyset(KeysetMetadata),
    Workflow(WorkflowMetadata),
    Script(ScriptMetadata),
}

/// Who published an item.
#[derive(Clone, Debug, PartialEq)]
pub struct Author {
    pub id: String,
    pub username: String,
    pub display_name: String,
    pub email: Option<String>,
    pub website: Option<String>,
    pub verified: bool,
    pub reputation: u32,
}

/// What an item costs, in minor currency units.
#[derive(Clone, Debug, PartialEq)]
pub enum Price {
    Free,
    Paid { amount: u32, currency: String },
    PayWhatYouWant { suggested: u32, currency: String },
    Subscription { monthly: u32, yearly: u32, currency: String },
}

/// An item's license.
#[derive(Clone, Debug, PartialEq)]
pub struct License {
    pub name: String,
    pub url: Option<String>,
    pub open_source: bool,
}

/// Which application versions and platforms an item works with.
#[derive(Clone, Debug, PartialEq)]
pub struct Compatibility {
    pub min_warp_version: String,
    pub max_warp_version: Option<String>,
    pub platforms: Vec<String>,
    pub architectures: Vec<String>,
}

/// A price restriction for searches.
#[derive(Clone, Copy, Debug, PartialEq, Eq, Structural)]
pub enum PriceFilter {
    Free,
    Paid,
    Any,
}

/// Search result orderings.
#[derive(Clone, Copy, Debug, PartialEq, Eq, Structural)]
pub enum SortBy {
    Relevance,
    Downloads,
    Rating,
    Recent,
    Name,
    Price,
}

/// Counts per facet of a search result.
#[derive(Clone, Debug, PartialEq)]
pub struct SearchFacets {
    pub categories: HashMap<ItemCategory, u32>,
    pub tags: HashMap<String, u32>,
    pub authors: HashMap<String, u32>,
    pub price_ranges: HashMap<String, u32>,
}

/// The marketplace browser's screens.
#[derive(Clone, Copy, Debug, PartialEq, Eq, Structural)]
pub enum MarketplaceUIState {
    Browse,
    Search,
    ItemDetails,
    Installing,
    Reviews,
    MyItems,
}

/// The marketplace browser's tabs.
#[derive(Clone, Copy, Debug, PartialEq, Eq, Structural)]
pub enum MarketplaceTab {
    Featured,
    Themes,
    Plugins,
    AIModels,
    Installed,
    Updates,
}

/// What a user prefers to be recommended.
#[derive(Clone, Debug, PartialEq)]
pub struct ThemePreferences {
    pub prefers_dark: bool,
    pub favorite_colors: Vec<String>,
    pub style_preference: String,
}

/// What discovery learned from use.
#[derive(Clone, Debug, PartialEq)]
pub struct UsageAnalytics {
    pub most_used_commands: HashMap<String, u32>,
    pub session_duration_minutes: u64,
    pub project_types: HashMap<String, u32>,
}

/// Where downloads are unpacked.
#[derive(Clone, Debug, PartialEq)]
pub struct Installer {
    pub download_cache: String,
    pub temp_directory: String,
}

/// The security policy settings.
#[derive(Clone, Debug, PartialEq)]
pub struct SecurityPolicies {
    pub require_verification: bool,
    pub allow_unverified_publishers: bool,
    pub scan_for_malware: bool,
    pub check_permissions: bool,
    pub max_package_size: u64,
}

/// Whether some entry of `s` reads `x`.
pub open spec fn has_str(s: Seq<String>, x: Seq<char>) -> bool {
    exists|i: int| 0 <= i < s.len() && s[i]@ == x
}

/// Decides which publishers are trusted, which items are blocked, and how
/// large a package may be.
pub struct SecurityManager {
    /// Publisher ids installation trusts outright.
    pub trusted_publishers: Vec<String>,
    /// Item ids that may not be installed.
    pub blocked_items: Vec<String>,
    /// The active policy set.
    pub security_policies: SecurityPolicies,
}

impl SecurityManager {
    /// The standard policy: the three stock publishers trusted, nothing
    /// blocked, verification required, packages capped at 100 MiB.
    pub fn new() -> (r: Self)
        ensures
            r.trusted_publishers@.len() == 3,
            r.trusted_publishers@[0]@ == "warp-official"@,
            r.trusted_publishers@[1]@ == "catppuccin"@,
            r.trusted_publishers@[2]@ == "gittools"@,
            r.blocked_items@.len() == 0,
            r.security_policies.require_verification,
            !r.security_policies.allow_unverified_publishers,
            r.security_policies.scan_for_malware,
            r.security_policies.check_permissions,
            r.security_policies.max_package_size == 104857600,
    {
        let mut trusted_publishers: Vec<String> = Vec::new();
        trusted_publishers.push("warp-official".to_owned());
        trusted_publishers.push("catppuccin".to_owned());
        trusted_publishers.push("gittools".to_owned());
        SecurityManager {
            trusted_publishers,
            blocked_items: Vec::new(),
            security_policies: SecurityPolicies {
                require_verification: true,
                allow_unverified_publishers: false,
                scan_for_malware: true,
                check_permissions: true,
                max_package_size: 104857600,
            },
        }
    }

    /// Whether the publisher is on the trusted list.
    pub fn is_publisher_trusted(&self, publisher_id: &str) -> (r: bool)
        ensures
            r == has_str(self.trusted_publishers@, publisher_id@),
    {
        str_list_contains(&self.trusted_publishers, publisher_id)
    }

    /// Blocks an item id.
    pub fn block_item(&mut self, item_id: String)
        ensures
            final(self).blocked_items@ == old(self).blocked_items@.push(item_id),
            final(self).trusted_publishers@ == old(self).trusted_publishers@,
            final(self).security_policies == old(self).security_policies,
    {
        self.blocked_items.push(item_id);
    }

    /// Refuses a blocked item and accepts anything else.
    pub fn verify_item(&self, item_id: &str) -> (r: Result<(), WarpError>)
        ensures
            !has_str(self.blocked_items@, item_id@) ==> r == Ok::<(), WarpError>(()),
            has_str(self.blocked_items@, item_id@) ==> (r matches Err(e)
                && e matches WarpError::ConfigError(m) && m@ == "Item "@ + item_id@
                + " is blocked"@),
    {
        if str_list_contains(&self.blocked_items, item_id) {
            let mut m = "Item ".to_owned();
            m.append(item_id);
            m.append(" is blocked");
            Err(WarpError::ConfigError(m))
        } else {
            Ok(())
        }
    }

    /// Refuses a package over the size cap and accepts anything else; the
    /// caller runs whatever content scanning the policies ask for.
    pub fn scan_package(&self, package_data: &[u8]) -> (r: Result<(), WarpError>)
        ensures
            package_data@.len() <= self.security_policies.max_package_size ==> r == Ok::<
                (),
                WarpError,
            >(()),
            package_data@.len() > self.security_policies.max_package_size ==> (r matches Err(e)
                && e matches WarpError::ConfigError(m) && m@
                == "Package size exceeds maximum allowed"@),
    {
        if package_data.len() as u64 > self.security_policies.max_package_size {
            Err(WarpError::ConfigError("Package size exceeds maximum allowed".to_owned()))
        } else {
            Ok(())
        }
    }
}

/// Whether some entry of the list reads `x`.
fn str_list_contains(list: &Vec<String>, x: &str) -> (r: bool)
    ensures
        r == has_str(list@, x@),
{
    let mut i: usize = 0;
    while i < list.len()
        invariant
            i <= list@.len(),
            forall|j: int| 0 <= j < i ==> list@[j]@ != x@,
        decreases list@.len() - i,
    {
        if crate::commands::str_eq(list[i].as_str(), x) {
            return true;
        }
        i = i + 1;
    }
    proof {
        assert(!has_str(list@, x@)) by {
            if has_str(list@, x@) {
                let j = choose|j: int| 0 <= j < list@.len() && list@[j]@ == x@;
                assert(list@[j]@ != x@);
            }
        }
    }
    false
}

} // verus!
