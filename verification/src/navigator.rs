//! What a movie may reach outside the player.
use vstd::prelude::*;

verus! {

/// The serialization of the URL that `url::Url::parse` makes of a text, or `None`
/// where it finds no absolute URL in it.
pub uninterp spec fn parsed_url(text: Seq<char>) -> Option<Seq<char>>;

/// Calls `url::Url::parse` and gives the serialization of the URL, or `None` for
/// every error. Parsing is a function of the text alone. Nothing is claimed of how
/// the serialization relates to the text.
#[verifier::external_body]
fn parse_url(text: &str) -> (url: Option<String>)
    ensures
        parsed_url(text@) == match url {
            Some(url) => Some(url@),
            None => None,
        },
{
    url::Url::parse(text).ok().map(String::from)
}

/// The address that every movie runs under, whatever it was loaded from.
pub fn movie_url() -> (url: Option<String>)
    ensures
        parsed_url("file://movie.swf"@) == match url {
            Some(url) => Some(url@),
            None => None,
        },
{
    parse_url("file://movie.swf")
}

/// A request to open a page that was refused.
#[derive(Debug, PartialEq, Eq)]
pub struct BlockedNavigation {
    /// What to log in place of opening the page.
    pub notice: String,
}

/// What stands between a movie and the device.
#[derive(Copy, Clone, Debug, PartialEq, Eq, Structural)]
pub struct AndroidNavigatorInterface;

impl AndroidNavigatorInterface {
    /// Outbound navigation is intentionally disabled: the player is embedded, so a
    /// movie must not be able to launch a browser. Every address is refused.
    pub fn navigate_to_website(&self, url: &str) -> (refused: BlockedNavigation)
        ensures
            refused.notice@ == "Blocked navigation to "@ + url@,
    {
        let mut notice = String::new();
        notice.append("Blocked navigation to ");
        notice.append(url);
        assert(notice@ =~= "Blocked navigation to "@ + url@);
        BlockedNavigation { notice }
    }

    /// Whether a movie may open a socket: it may open every one.
    pub fn confirm_socket(&self, _host: &str, _port: u16) -> (allowed: bool)
        ensures
            allowed,
    {
        true
    }
}

} // verus!
