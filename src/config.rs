use vstd::prelude::*;
use crate::error::{ConfigProblem, Error};

verus! {

/// The fields of the client's configuration document that the client reads;
/// a field that is absent or not a string is `None`.
#[derive(Debug)]
pub struct ConfigDocument {
    pub json_rpc_url: Option<String>,
    pub keypair_path: Option<String>,
}

/// Accepts a configuration file only when it holds exactly one document, and
/// returns that document.
pub fn get_config<T>(documents: Vec<T>) -> (r: Result<T, Error>)
    ensures
        r is Ok <==> documents@.len() == 1,
        r matches Ok(d) ==> d == documents@[0],
        r matches Err(e) ==> e == Error::InvalidConfig(ConfigProblem::DocumentCount(documents@.len() as usize)),
{
    let mut documents = documents;
    let n = documents.len();
    if n == 1 {
        Ok(documents.remove(0))
    } else {
        Err(Error::InvalidConfig(ConfigProblem::DocumentCount(n)))
    }
}

/// What `get_rpc_url` returns for a configuration.
pub open spec fn get_rpc_url_result(config: &ConfigDocument) -> Result<String, Error> {
    match config.json_rpc_url {
        Some(u) => Ok(u),
        None => Err(Error::InvalidConfig(ConfigProblem::MissingRpcUrl)),
    }
}

/// The RPC url that the configuration names.
pub fn get_rpc_url(config: &ConfigDocument) -> (r: Result<String, Error>)
    ensures
        r == get_rpc_url_result(config),
{
    match &config.json_rpc_url {
        Some(u) => Ok(u.clone()),
        None => Err(Error::InvalidConfig(ConfigProblem::MissingRpcUrl)),
    }
}

/// The path of the player's keypair file that the configuration names.
pub fn get_keypair_path(config: &ConfigDocument) -> (r: Result<String, Error>)
    ensures
        r is Ok <==> config.keypair_path is Some,
        r matches Ok(p) ==> config.keypair_path == Some(p),
        r matches Err(e) ==> e == Error::InvalidConfig(ConfigProblem::MissingKeypairPath),
{
    match &config.keypair_path {
        Some(p) => Ok(p.clone()),
        None => Err(Error::InvalidConfig(ConfigProblem::MissingKeypairPath)),
    }
}

/// The url that a cluster moniker, or its first letter, stands for; any
/// other text is taken as a url itself.
pub open spec fn url_for(s: Seq<char>) -> Seq<char> {
    if s == "m"@ || s == "mainnet-beta"@ {
        "https://api.mainnet-beta.solana.com"@
    } else if s == "t"@ || s == "testnet"@ {
        "https://api.testnet.solana.com"@
    } else if s == "d"@ || s == "devnet"@ {
        "https://api.devnet.solana.com"@
    } else if s == "l"@ || s == "localhost"@ {
        "http://localhost:8899"@
    } else {
        s
    }
}

/// Resolves a url or cluster moniker to a url.
pub fn resolve_url(url_or_moniker: &str) -> (r: String)
    ensures
        r@ == url_for(url_or_moniker@),
{
    let s: String = url_or_moniker.to_owned();
    if s == "m".to_owned() || s == "mainnet-beta".to_owned() {
        "https://api.mainnet-beta.solana.com".to_owned()
    } else if s == "t".to_owned() || s == "testnet".to_owned() {
        "https://api.testnet.solana.com".to_owned()
    } else if s == "d".to_owned() || s == "devnet".to_owned() {
        "https://api.devnet.solana.com".to_owned()
    } else if s == "l".to_owned() || s == "localhost".to_owned() {
        "http://localhost:8899".to_owned()
    } else {
        s
    }
}

/// The RPC url of a run: the url or moniker given by the caller if any,
/// otherwise the one the configuration names.
pub fn select_rpc_url(url: &Option<String>, config: &ConfigDocument) -> (r: Result<String, Error>)
    ensures
        url matches Some(u) ==> r matches Ok(v) && v@ == url_for(u@),
        url is None ==> r == get_rpc_url_result(config),
{
    match url {
        Some(u) => Ok(resolve_url(u.as_str())),
        None => get_rpc_url(config),
    }
}

} // verus!
