//! The server profiles that the configuration file lists, their validation
//! and the choice of the one this session uses.
use vstd::prelude::*;
use vstd::utf8::{encode_utf8, is_ascii_chars};

verus! {

/// The length of a well-formed authentication token, in bytes.
pub const TOKEN_LEN: usize = 32;

/// One Smarthome server that the language server can lint against.
#[derive(Clone, Debug)]
pub struct SmarthomeServer {
    pub id: String,
    pub url: String,
    pub token: String,
}

/// The contents of the configuration file.
#[derive(Clone, Debug)]
pub struct Config {
    pub servers: Vec<SmarthomeServer>,
}

/// Why a configuration was refused.
#[derive(Clone, Debug)]
pub enum ConfigError {
    /// The server list is empty.
    NoServers,
    /// A server repeats the id of an earlier one.
    DuplicateId(String),
    /// A server has an empty token.
    MissingToken(String),
    /// A server's token is not 32 bytes long.
    TokenLength(String),
    /// A server's token holds a space or a non-ASCII character.
    MalformedToken(String),
}

/// The token that a freshly written configuration carries: 32 dashes.
pub open spec fn placeholder_token() -> Seq<char> {
    Seq::new(TOKEN_LEN as nat, |i: int| '-')
}

impl Default for SmarthomeServer {
    fn default() -> (r: SmarthomeServer)
        ensures
            r.id@ == "default"@,
            r.url@ == "http://smarthome.box"@,
            r.token@ == placeholder_token(),
    {
        let mut token = String::new();
        let mut i: usize = 0;
        while i < TOKEN_LEN
            invariant
                i <= TOKEN_LEN,
                token@ =~= Seq::new(i as nat, |k: int| '-'),
            decreases TOKEN_LEN - i,
        {
            proof {
                reveal_strlit("-");
            }
            token.append("-");
            i = i + 1;
        }
        SmarthomeServer {
            id: String::from_str("default"),
            url: String::from_str("http://smarthome.box"),
            token,
        }
    }
}

impl Default for Config {
    fn default() -> (r: Config)
        ensures
            r.servers@.len() == 1,
            r.servers@[0].id@ == "default"@,
            r.servers@[0].url@ == "http://smarthome.box"@,
            r.servers@[0].token@ == placeholder_token(),
    {
        let mut servers: Vec<SmarthomeServer> = Vec::new();
        servers.push(SmarthomeServer::default());
        Config { servers }
    }
}

/// The first problem of server `i`, given the servers before it.
pub open spec fn server_problem(servers: Seq<SmarthomeServer>, i: int) -> Option<ConfigError> {
    let s = servers[i];
    if exists|j: int| 0 <= j < i && #[trigger] servers[j].id@ == s.id@ {
        Some(ConfigError::DuplicateId(s.id))
    } else if s.token@.len() == 0 {
        Some(ConfigError::MissingToken(s.id))
    } else if encode_utf8(s.token@).len() as usize != TOKEN_LEN {
        Some(ConfigError::TokenLength(s.id))
    } else if s.token@.contains(' ') || !is_ascii_chars(s.token@) {
        Some(ConfigError::MalformedToken(s.id))
    } else {
        None
    }
}

/// The first problem among the first `n` servers, in list order.
pub open spec fn first_problem(servers: Seq<SmarthomeServer>, n: nat) -> Option<ConfigError>
    decreases n,
{
    if n == 0 {
        None
    } else {
        match first_problem(servers, (n - 1) as nat) {
            Some(e) => Some(e),
            None => server_problem(servers, n - 1),
        }
    }
}

/// The verdict on a server list: no servers, the first problem in list
/// order, or none.
pub open spec fn config_problem(servers: Seq<SmarthomeServer>) -> Option<ConfigError> {
    if servers.len() == 0 {
        Some(ConfigError::NoServers)
    } else {
        first_problem(servers, servers.len())
    }
}

/// A problem found among the first `n` servers stays the first one.
proof fn lemma_problem_persists(servers: Seq<SmarthomeServer>, n: nat, m: nat)
    requires
        n <= m,
        first_problem(servers, n) is Some,
    ensures
        first_problem(servers, m) == first_problem(servers, n),
    decreases m - n,
{
    if n < m {
        lemma_problem_persists(servers, n, (m - 1) as nat);
    }
}

/// Whether `s` holds the character `c`.
fn contains_char(s: &str, c: char) -> (r: bool)
    ensures
        r == s@.contains(c),
{
    let n = s.unicode_len();
    let mut i: usize = 0;
    while i < n
        invariant
            i <= n,
            n == s@.len(),
            forall|k: int| 0 <= k < i ==> s@[k] != c,
        decreases n - i,
    {
        if s.get_char(i) == c {
            return true;
        }
        i = i + 1;
    }
    assert(!s@.contains(c)) by {
        assert forall|k: int| 0 <= k < s@.len() implies s@[k] != c by {}
    }
    false
}

/// The first problem of server `i`, given the servers before it.
fn check_server(servers: &Vec<SmarthomeServer>, i: usize) -> (r: Option<ConfigError>)
    requires
        i < servers@.len(),
    ensures
        r == server_problem(servers@, i as int),
{
    let s = &servers[i];
    let mut j: usize = 0;
    while j < i
        invariant
            i < servers@.len(),
            j <= i,
            s == servers@[i as int],
            forall|k: int| 0 <= k < j ==> servers@[k].id@ != s.id@,
        decreases i - j,
    {
        if servers[j].id == s.id {
            return Some(ConfigError::DuplicateId(s.id.clone()));
        }
        j = j + 1;
    }
    let token = s.token.as_str();
    if token.is_empty() {
        return Some(ConfigError::MissingToken(s.id.clone()));
    }
    if token.len() != TOKEN_LEN {
        return Some(ConfigError::TokenLength(s.id.clone()));
    }
    let has_space = contains_char(token, ' ');
    let ascii = token.is_ascii();
    if has_space || !ascii {
        return Some(ConfigError::MalformedToken(s.id.clone()));
    }
    None
}

/// Accepts a configuration whose server list is non-empty, whose ids are
/// unique and whose tokens are 32 ASCII characters without spaces; otherwise
/// names the first problem in list order.
pub fn validate_config(config: Config) -> (r: Result<Config, ConfigError>)
    ensures
        match config_problem(config.servers@) {
            Some(e) => r == Err::<Config, ConfigError>(e),
            None => r == Ok::<Config, ConfigError>(config),
        },
{
    if config.servers.len() == 0 {
        return Err(ConfigError::NoServers);
    }
    let mut i: usize = 0;
    while i < config.servers.len()
        invariant
            i <= config.servers@.len(),
            first_problem(config.servers@, i as nat) is None,
        decreases config.servers@.len() - i,
    {
        match check_server(&config.servers, i) {
            Some(e) => {
                proof {
                    lemma_problem_persists(config.servers@, (i + 1) as nat, config.servers@.len());
                }
                return Err(e);
            },
            None => {},
        }
        i = i + 1;
    }
    Ok(config)
}


/// Joins `a`, `b` and `c`.
fn join3(a: &str, b: &str, c: &str) -> (r: String)
    ensures
        r@ == a@ + b@ + c@,
{
    let mut r = String::from_str(a);
    r.append(b);
    r.append(c);
    r
}

/// The message a configuration problem is reported with.
pub open spec fn config_message(e: ConfigError) -> Seq<char> {
    match e {
        ConfigError::NoServers => "No servers specified: at least one server must be specified"@,
        ConfigError::DuplicateId(id) => "Duplicate server ID: the ID `"@ + id@ + "` must be unique"@,
        ConfigError::MissingToken(id) => "No authentication token provided for server `"@ + id@
            + "`"@,
        ConfigError::TokenLength(id) => "Malformed access token for server "@ + id@
            + ": token is not 32 characters long"@,
        ConfigError::MalformedToken(id) => "Malformed access token for server "@ + id@
            + ": may not contain whitespace or non-ASCII characters"@,
    }
}

impl ConfigError {
    /// The message this problem is reported with.
    pub fn message(&self) -> (r: String)
        ensures
            r@ == config_message(*self),
    {
        match self {
            ConfigError::NoServers => String::from_str(
                "No servers specified: at least one server must be specified",
            ),
            ConfigError::DuplicateId(id) => join3(
                "Duplicate server ID: the ID `",
                id.as_str(),
                "` must be unique",
            ),
            ConfigError::MissingToken(id) => join3(
                "No authentication token provided for server `",
                id.as_str(),
                "`",
            ),
            ConfigError::TokenLength(id) => join3(
                "Malformed access token for server ",
                id.as_str(),
                ": token is not 32 characters long",
            ),
            ConfigError::MalformedToken(id) => join3(
                "Malformed access token for server ",
                id.as_str(),
                ": may not contain whitespace or non-ASCII characters",
            ),
        }
    }
}

/// Where the configuration file lies by default, from the values of `HOME`
/// and `XDG_CONFIG_HOME`: under the latter when it is set, else under
/// `.config` in the former; nowhere when `HOME` is unset.
pub fn file_path(home: Option<String>, xdg_config_home: Option<String>) -> (r: Option<String>)
    ensures
        home is None ==> r is None,
        home matches Some(h) ==> r matches Some(p) && p@ == match xdg_config_home {
            Some(x) => x@ + "/homescript-ls-rs/config.toml"@,
            None => h@ + "/.config/homescript-ls-rs/config.toml"@,
        },
{
    match home {
        None => None,
        Some(h) => match xdg_config_home {
            Some(x) => {
                let mut p = x;
                p.append("/homescript-ls-rs/config.toml");
                Some(p)
            },
            None => {
                let mut p = h;
                p.append("/.config/homescript-ls-rs/config.toml");
                Some(p)
            },
        },
    }
}

/// The index of the first server whose id is `id`, if any.
pub open spec fn is_first_with_id(servers: Seq<SmarthomeServer>, id: Seq<char>, k: int) -> bool {
    &&& 0 <= k < servers.len()
    &&& servers[k].id@ == id
    &&& forall|j: int| 0 <= j < k ==> servers[j].id@ != id
}

impl Config {
    /// The profile this session uses: the first server with the requested
    /// id, or the first of the list when none is requested.
    pub fn select_profile(&self, server_id: &Option<String>) -> (r: Option<usize>)
        ensures
            server_id is None ==> r == (if self.servers@.len() > 0 {
                Some(0usize)
            } else {
                None
            }),
            server_id matches Some(id) ==> match r {
                Some(k) => is_first_with_id(self.servers@, id@, k as int),
                None => forall|j: int|
                    0 <= j < self.servers@.len() ==> #[trigger] self.servers@[j].id@ != id@,
            },
    {
        match server_id {
            None => if self.servers.len() > 0 {
                Some(0)
            } else {
                None
            },
            Some(id) => {
                let mut k: usize = 0;
                while k < self.servers.len()
                    invariant
                        k <= self.servers@.len(),
                        *server_id == Some(*id),
                        forall|j: int| 0 <= j < k ==> #[trigger] self.servers@[j].id@ != id@,
                    decreases self.servers@.len() - k,
                {
                    if self.servers[k].id == *id {
                        return Some(k);
                    }
                    k = k + 1;
                }
                None
            },
        }
    }
}

} // verus!
