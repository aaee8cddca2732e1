//! Decisions of the agent bridge: where a user message goes after natural
//! language understanding, which settings keys ride along to the backend
//! proxy, and when the project-health request may be issued. The HTTP
//! traffic itself stays outside this crate.

use vstd::prelude::*;

verus! {

/// Where one user message is handled.
#[derive(Clone, Copy, PartialEq, Eq, Structural, Debug)]
pub enum AgentRoute {
    /// The browser skill is handled locally: open the task in the browser.
    OpenBrowser,
    /// Everything else goes to the backend proxy with the saved settings.
    Proxy,
}

/// Route one understood message: only the browser intent with a task is
/// handled locally, everything else is proxied.
pub fn route_message(intent: Option<&str>, task: Option<&str>) -> (r: AgentRoute)
    ensures
        r is OpenBrowser <==> (intent matches Some(i) && i@ == "Browser"@ && task is Some),
{
    match (intent, task) {
        (Some(i), Some(_)) => {
            let browser = "Browser";
            if str_eq(i, browser) {
                AgentRoute::OpenBrowser
            } else {
                AgentRoute::Proxy
            }
        },
        _ => AgentRoute::Proxy,
    }
}

/// Relies on str's PartialEq: equality of the character sequences.
#[verifier::external_body]
fn str_eq(a: &str, b: &str) -> (r: bool)
    ensures
        r <==> a@ == b@,
{
    a == b
}

/// The settings keys forwarded to the backend proxy alongside a message,
/// in order.
pub fn proxy_setting_keys() -> (keys: Vec<&'static str>)
    ensures
        keys@.len() == 5,
        keys@[0]@ == "notion_api_key"@,
        keys@[1]@ == "zapier_webhook_url"@,
        keys@[2]@ == "tts_provider"@,
        keys@[3]@ == "elevenlabs_api_key"@,
        keys@[4]@ == "deepgram_api_key"@,
{
    let mut keys: Vec<&'static str> = Vec::new();
    keys.push("notion_api_key");
    keys.push("zapier_webhook_url");
    keys.push("tts_provider");
    keys.push("elevenlabs_api_key");
    keys.push("deepgram_api_key");
    keys
}

/// The project-health request needs every one of its five credentials; it
/// may be issued exactly when none is missing.
pub fn health_inputs_ready(
    notion_api_key: &Option<String>,
    notion_database_id: &Option<String>,
    github_owner: &Option<String>,
    github_repo: &Option<String>,
    slack_channel_id: &Option<String>,
) -> (ready: bool)
    ensures
        ready <==> (notion_api_key is Some && notion_database_id is Some && github_owner is Some
            && github_repo is Some && slack_channel_id is Some),
{
    notion_api_key.is_some() && notion_database_id.is_some() && github_owner.is_some()
        && github_repo.is_some() && slack_channel_id.is_some()
}

} // verus!
