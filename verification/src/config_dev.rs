use vstd::prelude::*;

verus! {

/// Where the page finds the back end, in a development build.
pub struct Config {
    pub backend_url: &'static str,
}

/// The development settings: the back end runs locally on port 3000.
pub fn env() -> (c: Config)
    ensures
        c.backend_url@ == "http://127.0.0.1:3000"@,
{
    Config { backend_url: "http://127.0.0.1:3000" }
}

} // verus!
