//! What is asked of the site, and which answers are accepted.

use vstd::prelude::*;
use crate::error::ScrapeError;

verus! {

/// The one response status that counts as success.
pub const STATUS_OK: u16 = 200;

/// How the program names itself to the site: its name, a slash and its
/// version.
pub open spec fn user_agent_text(name: Seq<char>, version: Seq<char>) -> Seq<char> {
    name + seq!['/'] + version
}

/// Makes the text by which the program names itself to the site.
pub fn user_agent(name: &str, version: &str) -> (agent: String)
    ensures
        agent@ == user_agent_text(name@, version@),
{
    let mut agent = String::from_str(name);
    agent.append("/");
    agent.append(version);
    proof {
        reveal_strlit("/");
        assert(agent@ =~= user_agent_text(name@, version@));
    }
    agent
}

/// The address of the front page of the site `domain`.
pub open spec fn site_url_text(domain: Seq<char>) -> Seq<char> {
    "https://"@ + domain
}

/// Makes the address of the front page of the site `domain`.
pub fn site_url(domain: &str) -> (url: String)
    ensures
        url@ == site_url_text(domain@),
{
    let mut url = String::from_str("https://");
    url.append(domain);
    url
}

/// Accepts the status [`STATUS_OK`] and refuses every other one, redirects
/// included.
pub fn check_status(status: u16) -> (checked: Result<(), ScrapeError>)
    ensures
        checked is Ok <==> status == STATUS_OK,
        checked matches Err(error) ==> error == (ScrapeError::UnexpectedStatus { status }),
{
    if status == STATUS_OK {
        Ok(())
    } else {
        Err(ScrapeError::UnexpectedStatus { status })
    }
}

} // verus!
