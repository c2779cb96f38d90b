//! The options a peer connection is built with.
use vstd::prelude::*;

verus! {

/// The STUN server used when the caller names none.
pub open spec fn default_ice_server() -> Seq<char> {
    "stun:stun.l.google.com:19302"@
}

/// The ICE servers (STUN or TURN URLs) a peer connection is built with, in order.
pub struct Configuration {
    stun_or_turn_urls: Vec<String>,
}

impl View for Configuration {
    type V = Seq<Seq<char>>;

    closed spec fn view(&self) -> Seq<Seq<char>> {
        self.stun_or_turn_urls@.map_values(|url: String| url@)
    }
}

impl Configuration {
    /// A configuration with the given STUN or TURN URLs, kept in order.
    pub fn new(stun_or_turn_urls: Vec<String>) -> (r: Configuration)
        ensures
            r@ == stun_or_turn_urls@.map_values(|url: String| url@),
    {
        Configuration { stun_or_turn_urls }
    }

    /// The number of ICE server URLs.
    pub fn len(&self) -> (r: usize)
        ensures
            r == self@.len(),
    {
        self.stun_or_turn_urls.len()
    }

    /// The URL at position `i`.
    pub fn url(&self, i: usize) -> (r: &str)
        requires
            i < self@.len(),
        ensures
            r@ == self@[i as int],
    {
        self.stun_or_turn_urls[i].as_str()
    }

    /// Gives up the URLs, in order, to build the engine's single ICE server entry.
    pub fn into_urls(self) -> (r: Vec<String>)
        ensures
            r@.map_values(|url: String| url@) == self@,
    {
        self.stun_or_turn_urls
    }
}

impl Default for Configuration {
    /// The configuration with the one default STUN server.
    fn default() -> (r: Configuration)
        ensures
            r@ == seq![default_ice_server()],
    {
        let url = String::from_str("stun:stun.l.google.com:19302");
        let mut urls: Vec<String> = Vec::new();
        urls.push(url);
        let r = Configuration { stun_or_turn_urls: urls };
        assert(r@ =~= seq![default_ice_server()]);
        r
    }
}

} // verus!
