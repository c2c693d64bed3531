//! The two capabilities of the solutions architect.

use vstd::prelude::*;

verus! {

/// A task put to the model: the name it is announced under and the
/// instruction, with its output format and worked examples, that is sent.
#[derive(Debug, Clone, Copy, PartialEq, Eq)]
pub struct Capability {
    pub name: &'static str,
    pub instruction: &'static str,
}

/// The mathematical content of a [`Capability`].
pub struct CapabilityView {
    pub name: Seq<char>,
    pub instruction: Seq<char>,
}

impl View for Capability {
    type V = CapabilityView;

    open spec fn view(&self) -> CapabilityView {
        CapabilityView { name: self.name@, instruction: self.instruction@ }
    }
}

pub const PROJECT_SCOPE_NAME: &'static str = "print_project_scope";

pub const PROJECT_SCOPE_INSTRUCTION: &'static str = r#"pub fn print_project_scope(_project_description: &str) {
    /// Input: Takes in a user request to build a website project description
    /// Function: Converts user request into JSON response of information items required for a website build.
    /// Important: At least one of the bool results must be true
    /// Output: Prints an object response in the following format:
    ///   {
    ///     "is_crud_required": bool, // true if site needs CRUD functionality
    ///     "is_user_login_and_logout": bool // true if site needs users to be able to log in and log out
    ///     "is_external_urls_required": bool // true if site needs to fetch data from third part providers
    ///   }
    /// Example 1:
    ///   user_request = "I need a full stack website that accepts users and gets stock price data"
    ///   prints:
    ///   {
    ///     "is_crud_required": true
    ///     "is_user_login_and_logout": true
    ///     "is_external_urls_required": bool true
    ///   }
    /// Example 2:
    ///   user_request = "I need a simple TODO app"
    ///   prints:
    ///   {
    ///     "is_crud_required": true
    ///     "is_user_login_and_logout": false
    ///     "is_external_urls_required": bool false
    ///   }
    println!(OUTPUT)
}"#;

pub const SITE_URLS_NAME: &'static str = "print_site_urls";

pub const SITE_URLS_INSTRUCTION: &'static str = r#"pub fn print_site_urls(_project_description: &str) {
    /// Input: Takes in a project description of a website build
    /// Function: Outputs a list of external public API endpoints that should be used in the building of the website
    /// Important: Only selects url endpoint(s) which do not require any API Keys at all
    /// Output: Prints a list response of external urls in the following format:
    /// ["url1", "url2", "url3", ...]
    /// Example:
    ///   website_team_spec = "website_purpose: Some("\"Provides Crypto Price Data from Binance and Kraken\"",)"
    ///   prints:
    /// ["https://api.binance.com/api/v3/exchangeInfo", "https://api.binance.com/api/v3/klines?symbol=BTCUSDT&interval=1d"]
    println!(OUTPUT)
}"#;

/// The capability that turns a project description into a project scope: a
/// JSON object of the three yes/no answers.
pub fn print_project_scope() -> (capability: Capability)
    ensures
        capability@ == (CapabilityView {
            name: PROJECT_SCOPE_NAME@,
            instruction: PROJECT_SCOPE_INSTRUCTION@,
        }),
{
    Capability { name: PROJECT_SCOPE_NAME, instruction: PROJECT_SCOPE_INSTRUCTION }
}

/// The capability that names the public endpoints a project should draw on:
/// a JSON array of URLs that need no key.
pub fn print_site_urls() -> (capability: Capability)
    ensures
        capability@ == (CapabilityView {
            name: SITE_URLS_NAME@,
            instruction: SITE_URLS_INSTRUCTION@,
        }),
{
    Capability { name: SITE_URLS_NAME, instruction: SITE_URLS_INSTRUCTION }
}

} // verus!
