use vstd::prelude::*;

verus! {

/// Where the page finds the back end, in a release build.
pub struct Config {
    pub backend_url: &'static str,
}

/// The release settings: the back end is served under `/api` of the public site.
pub fn env() -> (c: Config)
    ensures
        c.backend_url@ == "https://topos.locene.com/api"@,
{
    Config { backend_url: "https://topos.locene.com/api" }
}

} // verus!
