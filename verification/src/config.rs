use vstd::prelude::*;
use vstd::string::*;
use crate::search::strings;

verus! {

/// The settings the back end runs with, read from the environment.
#[derive(Debug)]
pub struct AppConfig {
    pub log_level: String,
    pub trow_api_url: String,
    pub trow_client_id: String,
    pub trow_client_secret: String,
    pub meilisearch_url: String,
    pub meilisearch_key: String,
    pub redis_url: String,
    pub admin_token: String,
}

/// The view of an environment: its variables as (name, value) pairs.
pub open spec fn env_view(vars: Seq<(String, String)>) -> Seq<(Seq<char>, Seq<char>)> {
    vars.map_values(|p: (String, String)| (p.0@, p.1@))
}

/// The value of the first variable called `name`, if any.
pub open spec fn lookup(vars: Seq<(Seq<char>, Seq<char>)>, name: Seq<char>) -> Option<Seq<char>>
    decreases vars.len(),
{
    if vars.len() == 0 {
        None
    } else if vars[0].0 == name {
        Some(vars[0].1)
    } else {
        lookup(vars.drop_first(), name)
    }
}

/// The value of the environment variable `name` (`std::env::var(name).ok()`), given the
/// environment as (name, value) pairs.
pub fn env_var(vars: &Vec<(String, String)>, name: &str) -> (r: Option<String>)
    ensures
        match r {
            Some(v) => lookup(env_view(vars@), name@) == Some(v@),
            None => lookup(env_view(vars@), name@) is None,
        },
{
    let key = name.to_owned();
    let n = vars.len();
    let mut i: usize = 0;
    let ghost e = env_view(vars@);
    assert(e.skip(0) == e);
    while i < n
        invariant
            n == vars.len(),
            i <= n,
            e == env_view(vars@),
            key@ == name@,
            lookup(e, name@) == lookup(e.skip(i as int), name@),
        decreases n - i,
    {
        let ghost rest = e.skip(i as int);
        assert(rest[0] == e[i as int]);
        assert(rest.drop_first() == e.skip(i + 1));
        if vars[i].0 == key {
            return Some(vars[i].1.clone());
        }
        i = i + 1;
    }
    None
}

/// The variables the configuration needs, in the order they are read.
pub open spec fn config_var_names() -> Seq<Seq<char>> {
    seq![
        "LOG_LEVEL"@,
        "TROW_API_URL"@,
        "TROW_CLIENT_ID"@,
        "TROW_CLIENT_SECRET"@,
        "MEILISEARCH_URL"@,
        "MEILISEARCH_KEY"@,
        "REDIS_URL"@,
        "ADMIN_TOKEN"@,
    ]
}

/// The error for a configuration variable that is not set.
pub open spec fn not_set_message(name: Seq<char>) -> Seq<char> {
    name + " environment variable not set"@
}

/// Whether every configuration variable is set.
pub open spec fn config_complete(e: Seq<(Seq<char>, Seq<char>)>) -> bool {
    forall|k: int| 0 <= k < 8 ==> (#[trigger] lookup(e, config_var_names()[k])) is Some
}

/// The value of configuration variable number `k`.
pub open spec fn config_value(e: Seq<(Seq<char>, Seq<char>)>, k: int) -> Seq<char> {
    lookup(e, config_var_names()[k])->0
}

/// The configuration `c` holds the values of the environment `e`.
pub open spec fn config_from(c: AppConfig, e: Seq<(Seq<char>, Seq<char>)>) -> bool {
    &&& c.log_level@ == config_value(e, 0)
    &&& c.trow_api_url@ == config_value(e, 1)
    &&& c.trow_client_id@ == config_value(e, 2)
    &&& c.trow_client_secret@ == config_value(e, 3)
    &&& c.meilisearch_url@ == config_value(e, 4)
    &&& c.meilisearch_key@ == config_value(e, 5)
    &&& c.redis_url@ == config_value(e, 6)
    &&& c.admin_token@ == config_value(e, 7)
}

fn required_var(vars: &Vec<(String, String)>, name: &str, k: Ghost<int>) -> (r: Result<String, String>)
    requires
        0 <= k@ < 8,
        name@ == config_var_names()[k@],
    ensures
        match r {
            Ok(v) => lookup(env_view(vars@), name@) == Some(v@),
            Err(m) => lookup(env_view(vars@), name@) is None && m@ == not_set_message(name@),
        },
{
    match env_var(vars, name) {
        Some(v) => Ok(v),
        None => Err(name.to_owned().concat(" environment variable not set")),
    }
}

impl AppConfig {
    /// Reads the configuration from the environment. It fails on the first variable, in the
    /// order of `config_var_names`, that is not set, naming it.
    pub fn load_config(vars: &Vec<(String, String)>) -> (r: Result<AppConfig, String>)
        ensures
            r is Ok <==> config_complete(env_view(vars@)),
            match r {
                Ok(c) => config_from(c, env_view(vars@)),
                Err(m) => exists|k: int|
                    0 <= k < 8 && (#[trigger] lookup(env_view(vars@), config_var_names()[k])) is None
                        && (forall|j: int| 0 <= j < k ==> (#[trigger] lookup(env_view(vars@), config_var_names()[j])) is Some)
                        && m@ == not_set_message(config_var_names()[k]),
            },
    {
        let ghost e = env_view(vars@);
        let ghost names = config_var_names();
        let log_level = match required_var(vars, "LOG_LEVEL", Ghost(0)) {
            Ok(v) => v,
            Err(m) => {
                assert(lookup(e, names[0]) is None);
                return Err(m);
            },
        };
        assert(lookup(e, names[0]) is Some);
        let trow_api_url = match required_var(vars, "TROW_API_URL", Ghost(1)) {
            Ok(v) => v,
            Err(m) => {
                assert(lookup(e, names[1]) is None);
                return Err(m);
            },
        };
        assert(lookup(e, names[1]) is Some);
        let trow_client_id = match required_var(vars, "TROW_CLIENT_ID", Ghost(2)) {
            Ok(v) => v,
            Err(m) => {
                assert(lookup(e, names[2]) is None);
                return Err(m);
            },
        };
        assert(lookup(e, names[2]) is Some);
        let trow_client_secret = match required_var(vars, "TROW_CLIENT_SECRET", Ghost(3)) {
            Ok(v) => v,
            Err(m) => {
                assert(lookup(e, names[3]) is None);
                return Err(m);
            },
        };
        assert(lookup(e, names[3]) is Some);
        let meilisearch_url = match required_var(vars, "MEILISEARCH_URL", Ghost(4)) {
            Ok(v) => v,
            Err(m) => {
                assert(lookup(e, names[4]) is None);
                return Err(m);
            },
        };
        assert(lookup(e, names[4]) is Some);
        let meilisearch_key = match required_var(vars, "MEILISEARCH_KEY", Ghost(5)) {
            Ok(v) => v,
            Err(m) => {
                assert(lookup(e, names[5]) is None);
                return Err(m);
            },
        };
        assert(lookup(e, names[5]) is Some);
        let redis_url = match required_var(vars, "REDIS_URL", Ghost(6)) {
            Ok(v) => v,
            Err(m) => {
                assert(lookup(e, names[6]) is None);
                return Err(m);
            },
        };
        assert(lookup(e, names[6]) is Some);
        let admin_token = match required_var(vars, "ADMIN_TOKEN", Ghost(7)) {
            Ok(v) => v,
            Err(m) => {
                assert(lookup(e, names[7]) is None);
                return Err(m);
            },
        };
        assert(lookup(e, names[7]) is Some);
        assert(config_complete(e));
        Ok(AppConfig {
            log_level,
            trow_api_url,
            trow_client_id,
            trow_client_secret,
            meilisearch_url,
            meilisearch_key,
            redis_url,
            admin_token,
        })
    }
}

/// The application configuration. Every configuration variable must be set: the program
/// stops at start-up otherwise.
pub fn get_app_config(vars: &Vec<(String, String)>) -> (c: AppConfig)
    requires
        config_complete(env_view(vars@)),
    ensures
        config_from(c, env_view(vars@)),
{
    match AppConfig::load_config(vars) {
        Ok(c) => c,
        Err(_) => unreached(),
    }
}

} // verus!

verus! {

/// The profile the configuration is loaded for: `APP_ENV`, or `development` when unset.
pub fn app_profile(vars: &Vec<(String, String)>) -> (r: String)
    ensures
        r@ == match lookup(env_view(vars@), "APP_ENV"@) {
            Some(p) => p,
            None => "development"@,
        },
{
    match env_var(vars, "APP_ENV") {
        Some(p) => p,
        None => "development".to_owned(),
    }
}

/// The env files loaded for a profile, in order: `.env.<profile>.local`, `.env.<profile>`,
/// `.env.local`, `.env`.
pub fn env_file_names(profile: &str) -> (r: Vec<String>)
    ensures
        strings(r@) == seq![
            ".env."@ + profile@ + ".local"@,
            ".env."@ + profile@,
            ".env.local"@,
            ".env"@,
        ],
{
    let first = ".env.".to_owned().concat(profile).concat(".local");
    let second = ".env.".to_owned().concat(profile);
    let r = vec![first, second, ".env.local".to_owned(), ".env".to_owned()];
    assert(strings(r@) =~= seq![
        ".env."@ + profile@ + ".local"@,
        ".env."@ + profile@,
        ".env.local"@,
        ".env"@,
    ]);
    r
}

/// The profile of an environment: its `APP_ENV`, or `development` when that is not set.
pub open spec fn profile_of(e: Seq<(Seq<char>, Seq<char>)>) -> Seq<char> {
    match lookup(e, "APP_ENV"@) {
        Some(p) => p,
        None => "development"@,
    }
}

/// The env files loaded for an environment, in the order they are loaded.
pub open spec fn env_files_for(e: Seq<(Seq<char>, Seq<char>)>) -> Seq<Seq<char>> {
    seq![
        ".env."@ + profile_of(e) + ".local"@,
        ".env."@ + profile_of(e),
        ".env.local"@,
        ".env"@,
    ]
}

/// The env files to load, in order, for the process environment `vars`: those of its
/// profile first, then the shared ones.
pub fn env_files_to_load(vars: &Vec<(String, String)>) -> (r: Vec<String>)
    ensures
        strings(r@) == env_files_for(env_view(vars@)),
{
    let profile = app_profile(vars);
    env_file_names(profile.as_str())
}

/// The environment after an env file is loaded into it. A variable that is already set keeps
/// its value, and where the file sets a variable twice its first line counts: the file's
/// variables come after those already set, and a variable is read from its first entry.
pub fn with_env_file(vars: &Vec<(String, String)>, file: &Vec<(String, String)>) -> (r: Vec<(String, String)>)
    ensures
        env_view(r@) == env_view(vars@) + env_view(file@),
        forall|name: Seq<char>| #[trigger] lookup(env_view(r@), name) == match lookup(env_view(vars@), name) {
            Some(v) => Some(v),
            None => lookup(env_view(file@), name),
        },
{
    let mut r: Vec<(String, String)> = Vec::new();
    let n = vars.len();
    let mut i: usize = 0;
    while i < n
        invariant
            n == vars.len(),
            i <= n,
            r@ == vars@.take(i as int),
        decreases n - i,
    {
        let name = vars[i].0.clone();
        let value = vars[i].1.clone();
        r.push((name, value));
        assert(vars@.take(i + 1) == vars@.take(i as int).push(vars@[i as int]));
        i = i + 1;
    }
    let m = file.len();
    let mut j: usize = 0;
    assert(vars@.take(n as int) == vars@);
    while j < m
        invariant
            m == file.len(),
            j <= m,
            r@ == vars@ + file@.take(j as int),
        decreases m - j,
    {
        let name = file[j].0.clone();
        let value = file[j].1.clone();
        r.push((name, value));
        assert(file@.take(j + 1) == file@.take(j as int).push(file@[j as int]));
        j = j + 1;
    }
    assert(file@.take(m as int) == file@);
    assert(env_view(r@) =~= env_view(vars@) + env_view(file@));
    assert forall|name: Seq<char>| #[trigger] lookup(env_view(r@), name) == match lookup(env_view(vars@), name) {
        Some(v) => Some(v),
        None => lookup(env_view(file@), name),
    } by {
        law_lookup_prefers_earlier(env_view(vars@), env_view(file@), name);
    }
    r
}

/// A variable set in an earlier part of an environment hides any later entry of the same
/// name; a variable not set there is read from the later part. Loading env files after the
/// process environment therefore never overrides a variable that is already set, and of two
/// files the one loaded first wins.
pub proof fn law_lookup_prefers_earlier(
    a: Seq<(Seq<char>, Seq<char>)>,
    b: Seq<(Seq<char>, Seq<char>)>,
    name: Seq<char>,
)
    ensures
        lookup(a + b, name) == match lookup(a, name) {
            Some(v) => Some(v),
            None => lookup(b, name),
        },
    decreases a.len(),
{
    if a.len() > 0 {
        assert((a + b).drop_first() =~= a.drop_first() + b);
        law_lookup_prefers_earlier(a.drop_first(), b, name);
    } else {
        assert(a + b =~= b);
    }
}

/// A directory as the names of its components from the root (the root is the empty sequence).
pub open spec fn dir_view(d: Seq<String>) -> Seq<Seq<char>> {
    strings(d)
}

/// The directories searched for an env file, in order, starting from `dir`: each directory
/// going up, until the parent is the root or a directory called `src`; then that parent's
/// parent (the root itself when the parent is the root) is the last one searched.
pub open spec fn env_search_dirs(dir: Seq<Seq<char>>) -> Seq<Seq<Seq<char>>>
    decreases dir.len(),
{
    if dir.len() == 0 {
        seq![dir]
    } else {
        let parent = dir.drop_last();
        if parent.len() == 0 {
            seq![dir, parent]
        } else if parent.last() == "src"@ {
            seq![dir, parent.drop_last()]
        } else {
            seq![dir] + env_search_dirs(parent)
        }
    }
}

fn copy_dir(d: &Vec<String>) -> (r: Vec<String>)
    ensures
        dir_view(r@) == dir_view(d@),
        r@.len() == d@.len(),
{
    let mut r: Vec<String> = Vec::new();
    let n = d.len();
    let mut i: usize = 0;
    while i < n
        invariant
            n == d.len(),
            i <= n,
            dir_view(r@) == dir_view(d@.take(i as int)),
            r@.len() == i,
        decreases n - i,
    {
        let ghost prev = r@;
        let c = d[i].clone();
        r.push(c);
        assert(d@.take(i + 1) == d@.take(i as int).push(d@[i as int]));
        assert(r@ == prev.push(c));
        assert(dir_view(r@) =~= dir_view(prev).push(c@));
        assert(dir_view(d@.take(i + 1)) =~= dir_view(d@.take(i as int)).push(d@[i as int]@));
        i = i + 1;
    }
    assert(d@.take(n as int) == d@);
    r
}

/// The directories in which to look for an env file, in the order they are searched,
/// starting from the current directory `cwd` (given by its components).
pub fn env_file_search_dirs(cwd: &Vec<String>) -> (r: Vec<Vec<String>>)
    ensures
        r@.map_values(|d: Vec<String>| dir_view(d@)) == env_search_dirs(dir_view(cwd@)),
{
    let mut out: Vec<Vec<String>> = Vec::new();
    let mut curr = copy_dir(cwd);
    let src = "src".to_owned();
    assert(out@.map_values(|d: Vec<String>| dir_view(d@)) + env_search_dirs(dir_view(curr@)) =~= env_search_dirs(dir_view(curr@)));
    loop
        invariant_except_break
            src@ == "src"@,
            env_search_dirs(dir_view(cwd@)) == out@.map_values(|d: Vec<String>| dir_view(d@))
                + env_search_dirs(dir_view(curr@)),
        ensures
            env_search_dirs(dir_view(cwd@)) == out@.map_values(|d: Vec<String>| dir_view(d@)),
        decreases curr@.len(),
    {
        let ghost before = out@;
        let ghost cv = dir_view(curr@);
        let here = copy_dir(&curr);
        out.push(here);
        assert(out@.map_values(|d: Vec<String>| dir_view(d@)) == before.map_values(|d: Vec<String>| dir_view(d@)).push(cv));
        let ghost mid = out@;
        if curr.len() == 0 {
            assert(env_search_dirs(cv) == seq![cv]);
            break;
        }
        curr.pop();
        let ghost pv = dir_view(curr@);
        assert(pv =~= cv.drop_last());
        if curr.len() == 0 {
            let root = copy_dir(&curr);
            out.push(root);
            assert(out@.map_values(|d: Vec<String>| dir_view(d@)) == mid.map_values(|d: Vec<String>| dir_view(d@)).push(pv));
            assert(env_search_dirs(cv) == seq![cv, pv]);
            break;
        }
        let last = curr.len() - 1;
        if curr[last] == src {
            assert(pv.last() == "src"@);
            curr.pop();
            let ghost gv = dir_view(curr@);
            assert(gv =~= pv.drop_last());
            let grand = copy_dir(&curr);
            out.push(grand);
            assert(out@.map_values(|d: Vec<String>| dir_view(d@)) == mid.map_values(|d: Vec<String>| dir_view(d@)).push(gv));
            assert(env_search_dirs(cv) == seq![cv, gv]);
            break;
        }
        assert(pv.last() != "src"@);
        assert(env_search_dirs(cv) == seq![cv] + env_search_dirs(pv));
    }
    out
}

} // verus!
