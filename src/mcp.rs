//! Resources the sandbox exposes to Model Context Protocol clients.
use vstd::prelude::*;

use crate::text::concat;

verus! {

/// An MCP resource.
#[derive(Clone, Debug)]
pub struct MCPResource {
    pub uri: String,
    pub name: String,
    pub description: String,
    pub mime_type: Option<String>,
}

/// The resources of a user: the session and the workspace files.
pub fn get_mcp_resources(user_id: &str) -> (r: Vec<MCPResource>)
    ensures
        r@.len() == 2,
        r@[0].uri@ == "cage://sessions/"@ + user_id@,
        r@[0].name@ == user_id@ + "'s sandbox session"@,
        r@[0].description@ == "Current sandbox session information"@,
        r@[0].mime_type matches Some(m) && m@ == "application/json"@,
        r@[1].uri@ == "cage://files/"@ + user_id@,
        r@[1].name@ == user_id@ + "'s workspace files"@,
        r@[1].description@ == "Files in user's sandbox workspace"@,
        r@[1].mime_type matches Some(m) && m@ == "application/json"@,
{
    let mut v: Vec<MCPResource> = Vec::new();
    v.push(
        MCPResource {
            uri: concat("cage://sessions/", user_id),
            name: concat(user_id, "'s sandbox session"),
            description: "Current sandbox session information".to_string(),
            mime_type: Some("application/json".to_string()),
        },
    );
    v.push(
        MCPResource {
            uri: concat("cage://files/", user_id),
            name: concat(user_id, "'s workspace files"),
            description: "Files in user's sandbox workspace".to_string(),
            mime_type: Some("application/json".to_string()),
        },
    );
    v
}

} // verus!
