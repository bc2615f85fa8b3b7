use vstd::prelude::*;
use crate::types::{vars_view, Config, ProjectEntry, Var};

verus! {

/// Why a client command cannot go on.
#[derive(Debug, Clone, Copy, PartialEq, Eq, Structural)]
pub enum ClientError {
    /// no local configuration, and the arguments do not name everything needed
    MissingProjectInfo,
    /// the server url does not parse
    BadUrl,
    /// the variable file does not parse
    BadEnvFile,
}

/// How the server answered a request, by its status.
#[derive(Debug, Clone, Copy, PartialEq, Eq, Structural)]
pub enum ServerReply {
    /// 200: the request was carried out
    Accepted,
    /// 400: the request was refused (the project exists, or does not)
    Refused,
    /// any other status
    Unexpected,
}

pub open spec fn reply_of(status: u16) -> ServerReply {
    if status == 200 {
        ServerReply::Accepted
    } else if status == 400 {
        ServerReply::Refused
    } else {
        ServerReply::Unexpected
    }
}

pub fn classify(status: u16) -> (r: ServerReply)
    ensures
        r == reply_of(status),
{
    if status == 200 {
        ServerReply::Accepted
    } else if status == 400 {
        ServerReply::Refused
    } else {
        ServerReply::Unexpected
    }
}

/// The answer to an existence check: `Some(true)` where the server says the
/// project exists, `Some(false)` where it says it does not, `None` where the
/// reply is not one of these.
pub fn exists_answer(status: u16, body: &str) -> (r: Option<bool>)
    ensures
        r == if status == 200 {
            Some(body@ == "true"@)
        } else {
            None
        },
{
    if status == 200 {
        let b = String::from_str(body);
        let t = String::from_str("true");
        Some(b == t)
    } else {
        None
    }
}

/// The value of a string of decimal digits.
pub open spec fn digits_value(s: Seq<char>) -> int
    decreases s.len(),
{
    if s.len() == 0 {
        0
    } else {
        digits_value(s.drop_last()) * 10 + (s.last() as u32 - '0' as u32)
    }
}

/// The number that a string spells: an optional `+` and then one or more
/// decimal digits, with a value that fits in 128 bits.
pub open spec fn spelled_u128(s: Seq<char>) -> Option<u128> {
    let d = if s.len() > 0 && s[0] == '+' {
        s.drop_first()
    } else {
        s
    };
    if d.len() > 0 && (forall|i: int| 0 <= i < d.len() ==> '0' <= #[trigger] d[i] <= '9')
        && digits_value(d) <= u128::MAX {
        Some(digits_value(d) as u128)
    } else {
        None
    }
}

/// Relies on `str::parse::<u128>`: an optional `+` followed by decimal
/// digits only, with no overflow.
#[verifier::external_body]
fn parse_u128(s: &str) -> (r: Option<u128>)
    ensures
        r == spelled_u128(s@),
{
    s.parse::<u128>().ok()
}

/// The timestamp in the body of a create or update reply.
pub fn parse_timestamp(body: &str) -> (r: Option<u128>)
    ensures
        r == spelled_u128(body@),
{
    parse_u128(body)
}

/// Whether the server holds a version that the client has not seen.
pub fn has_new_version(entry: &ProjectEntry, conf: &Config) -> (r: bool)
    ensures
        r == (entry.timestamp > conf.last_version),
{
    entry.timestamp > conf.last_version
}

/// The configuration after the client took the server's entry: its
/// timestamp and path, with the same server and project.
pub fn config_after_pull(conf: Config, entry: &ProjectEntry) -> (r: Config)
    ensures
        r.remote_url@ == conf.remote_url@,
        r.name@ == conf.name@,
        r.last_version == entry.timestamp,
        r.path@ == entry.path@,
{
    Config { remote_url: conf.remote_url, last_version: entry.timestamp, path: entry.path.clone(), name: conf.name }
}

/// The project name and server url of a command: each taken from the
/// arguments where given, else from the local configuration.
pub fn resolve_target(conf: &Option<Config>, name: Option<String>, remote_url: Option<String>) -> (r: Result<
    (String, String),
    ClientError,
>)
    ensures
        r is Err <==> (conf is None && (name is None || remote_url is None)),
        r is Err ==> r->Err_0 == ClientError::MissingProjectInfo,
        r matches Ok((n, u)) ==> {
            &&& n@ == match name {
                Some(x) => x@,
                None => conf->Some_0.name@,
            }
            &&& u@ == match remote_url {
                Some(x) => x@,
                None => conf->Some_0.remote_url@,
            }
        },
{
    let n = match name {
        Some(x) => x,
        None => match conf {
            Some(c) => c.name.clone(),
            None => return Err(ClientError::MissingProjectInfo),
        },
    };
    let u = match remote_url {
        Some(x) => x,
        None => match conf {
            Some(c) => c.remote_url.clone(),
            None => return Err(ClientError::MissingProjectInfo),
        },
    };
    Ok((n, u))
}

/// The project name, variable file and server url of a push: each taken
/// from the arguments where given, else from the local configuration.
pub fn resolve_push(conf: &Option<Config>, name: Option<String>, file: Option<String>, remote_url: Option<String>) -> (r: Result<
    (String, String, String),
    ClientError,
>)
    ensures
        r is Err <==> (conf is None && (name is None || file is None || remote_url is None)),
        r is Err ==> r->Err_0 == ClientError::MissingProjectInfo,
        r matches Ok((n, f, u)) ==> {
            &&& n@ == match name {
                Some(x) => x@,
                None => conf->Some_0.name@,
            }
            &&& f@ == match file {
                Some(x) => x@,
                None => conf->Some_0.path@,
            }
            &&& u@ == match remote_url {
                Some(x) => x@,
                None => conf->Some_0.remote_url@,
            }
        },
{
    let f = match file {
        Some(x) => x,
        None => match conf {
            Some(c) => c.path.clone(),
            None => return Err(ClientError::MissingProjectInfo),
        },
    };
    match resolve_target(conf, name, remote_url) {
        Ok((n, u)) => Ok((n, f, u)),
        Err(e) => Err(e),
    }
}

/// The text of a variable file: one `name=value` line for each variable, in
/// order.
pub open spec fn env_text(vars: Seq<(Seq<char>, Seq<char>)>) -> Seq<char>
    decreases vars.len(),
{
    if vars.len() == 0 {
        Seq::empty()
    } else {
        env_text(vars.drop_last()) + vars.last().0 + "="@ + vars.last().1 + "\n"@
    }
}

/// The text of the variable file that holds `vars`.
pub fn env_file_text(vars: &Vec<Var>) -> (r: String)
    ensures
        r@ == env_text(vars_view(vars@)),
{
    let mut r = String::new();
    let mut i: usize = 0;
    while i < vars.len()
        invariant
            i <= vars.len(),
            r@ == env_text(vars_view(vars@.take(i as int))),
        decreases vars.len() - i,
    {
        r.append(vars[i].name.as_str());
        r.append("=");
        r.append(vars[i].value.as_str());
        r.append("\n");
        proof {
            assert(vars_view(vars@.take(i + 1)).drop_last() =~= vars_view(vars@.take(i as int)));
        }
        i = i + 1;
    }
    assert(vars@.take(i as int) =~= vars@);
    r
}

/// What the url crate makes of `url` with its path set to `path`: `None`
/// where `url` does not parse.
pub uninterp spec fn url_with_path(url: Seq<char>, path: Seq<char>) -> Option<Seq<char>>;

/// Relies on the url crate: `Url::parse` of `url`, then `Url::set_path` with
/// `path`, then the text of the result by `Url::as_str`.
#[verifier::external_body]
fn join_url(url: &str, path: &str) -> (r: Option<String>)
    ensures
        r is Some <==> url_with_path(url@, path@) is Some,
        r matches Some(s) ==> s@ == url_with_path(url@, path@)->Some_0,
{
    match url::Url::parse(url) {
        Ok(mut u) => {
            u.set_path(path);
            Some(u.as_str().to_string())
        },
        Err(_) => None,
    }
}

/// The url of `endpoint` on the server at `url`.
pub fn append_endpoint(url: &String, endpoint: &str) -> (r: Result<String, ClientError>)
    ensures
        r is Ok <==> url_with_path(url@, endpoint@) is Some,
        r matches Ok(s) ==> s@ == url_with_path(url@, endpoint@)->Some_0,
        r is Err ==> r->Err_0 == ClientError::BadUrl,
{
    match join_url(url.as_str(), endpoint) {
        Some(s) => Ok(s),
        None => Err(ClientError::BadUrl),
    }
}

/// The variables that the dotenv parser reads from a variable file's text,
/// or `None` where the text does not parse.
pub uninterp spec fn dotenv_pairs(source: Seq<char>) -> Option<Seq<(Seq<char>, Seq<char>)>>;

pub open spec fn pairs_view(pairs: Seq<(String, String)>) -> Seq<(Seq<char>, Seq<char>)> {
    pairs.map_values(|p: (String, String)| (p.0@, p.1@))
}

/// Relies on `dotenv_parser::parse_dotenv`: the name and value pairs of a
/// variable file, handed out in the order of its map.
#[verifier::external_body]
fn parse_env_source(source: &str) -> (r: Option<Vec<(String, String)>>)
    ensures
        r is Some <==> dotenv_pairs(source@) is Some,
        r matches Some(v) ==> pairs_view(v@) == dotenv_pairs(source@)->Some_0,
{
    match dotenv_parser::parse_dotenv(source) {
        Ok(map) => Some(map.into_iter().collect()),
        Err(_) => None,
    }
}

/// The variables of name and value pairs, in the same order.
pub fn vars_from_pairs(pairs: &Vec<(String, String)>) -> (r: Vec<Var>)
    ensures
        vars_view(r@) == pairs_view(pairs@),
{
    let mut r: Vec<Var> = Vec::new();
    let mut i: usize = 0;
    while i < pairs.len()
        invariant
            i <= pairs.len(),
            r.len() == i,
            forall|j: int| 0 <= j < i ==> #[trigger] r@[j]@ == (pairs@[j].0@, pairs@[j].1@),
        decreases pairs.len() - i,
    {
        r.push(Var { name: pairs[i].0.clone(), value: pairs[i].1.clone() });
        i = i + 1;
    }
    assert(vars_view(r@) =~= pairs_view(pairs@));
    r
}

/// The variables of a variable file's text.
pub fn vars_from_env_source(source: &str) -> (r: Result<Vec<Var>, ClientError>)
    ensures
        r is Ok <==> dotenv_pairs(source@) is Some,
        r matches Ok(v) ==> vars_view(v@) == dotenv_pairs(source@)->Some_0,
        r is Err ==> r->Err_0 == ClientError::BadEnvFile,
{
    match parse_env_source(source) {
        Some(pairs) => Ok(vars_from_pairs(&pairs)),
        None => Err(ClientError::BadEnvFile),
    }
}

/// The upper case of a text, as `str::to_uppercase` gives it.
pub uninterp spec fn upper_of(s: Seq<char>) -> Seq<char>;

/// Relies on `str::to_uppercase`: the result depends on the characters alone.
#[verifier::external_body]
fn uppercase(s: &str) -> (r: String)
    ensures
        r@ == upper_of(s@),
{
    s.to_uppercase()
}

/// The answer in an upper-cased reply: no where it starts with `N`, else yes.
pub fn answer_of_upper(up: &str) -> (r: bool)
    ensures
        r == !(up@.len() > 0 && up@[0] == 'N'),
{
    if up.unicode_len() == 0 {
        true
    } else {
        up.get_char(0) != 'N'
    }
}

/// The answer in a line typed at a yes or no question: `None` for an empty
/// line (ask again); no where its upper case starts with `N`; else yes.
pub fn confirm_answer(line: &str) -> (r: Option<bool>)
    ensures
        r == if line@.len() == 0 {
            None
        } else {
            Some(!(upper_of(line@).len() > 0 && upper_of(line@)[0] == 'N'))
        },
{
    if line.unicode_len() == 0 {
        None
    } else {
        let up = uppercase(line);
        Some(answer_of_upper(up.as_str()))
    }
}

} // verus!
