//! Addresses of remote repositories: the hosts that are known, the ways to
//! reach them, and the URL of a repository on a host.

use crate::error::Failure;
use crate::text::same_text;
use vstd::prelude::*;
use vstd::string::*;

verus! {

/// The lower-case form of a text, as `str::to_lowercase` gives it.
pub uninterp spec fn lowercase(text: Seq<char>) -> Seq<char>;

/// Calls `str::to_lowercase`. Trusted: the result is the lower-case form of
/// `text`, which depends on nothing but `text`.
#[verifier::external_body]
fn to_lowercase(text: &str) -> (lowered: String)
    ensures
        lowered@ == lowercase(text@),
{
    text.to_lowercase()
}

/// How a repository is reached.
#[derive(Debug, Clone, Copy, PartialEq, Eq, Structural)]
pub enum ConnectionMethod {
    SSH,
    HTTPS,
}

/// The hosts that repositories are fetched from.
#[derive(Debug, Clone, Copy, PartialEq, Eq, Structural)]
pub enum RepoHostName {
    GitHub,
    GitLab,
}

/// What a repository's path is prefixed with on a host, by method.
#[derive(Debug, Clone, Copy)]
pub struct RepoHost {
    pub ssh_prefix: &'static str,
    pub https_prefix: &'static str,
}

/// The connection method that a lower-case word names.
pub open spec fn method_named(word: Seq<char>) -> Option<ConnectionMethod> {
    if word == "ssh"@ {
        Some(ConnectionMethod::SSH)
    } else if word == "https"@ {
        Some(ConnectionMethod::HTTPS)
    } else {
        None
    }
}

/// The host that a lower-case word names.
pub open spec fn host_named(word: Seq<char>) -> Option<RepoHostName> {
    if word == "github"@ {
        Some(RepoHostName::GitHub)
    } else if word == "gitlab"@ {
        Some(RepoHostName::GitLab)
    } else {
        None
    }
}

/// What goes in front of a repository's path.
pub open spec fn url_prefix(host: RepoHostName, method: ConnectionMethod) -> Seq<char> {
    match (host, method) {
        (RepoHostName::GitHub, ConnectionMethod::SSH) => "git@github.com:"@,
        (RepoHostName::GitHub, ConnectionMethod::HTTPS) => "https://github.com/"@,
        (RepoHostName::GitLab, ConnectionMethod::SSH) => "git@gitlab.com:"@,
        (RepoHostName::GitLab, ConnectionMethod::HTTPS) => "https://gitlab.com/"@,
    }
}

/// The URL of the repository `repository`, given as `OWNER/NAME`.
pub open spec fn host_git_url(
    repository: Seq<char>,
    host: RepoHostName,
    method: ConnectionMethod,
) -> Seq<char> {
    url_prefix(host, method) + repository + ".git"@
}

impl ConnectionMethod {
    /// Every method, in the order in which they are offered.
    pub fn all() -> (methods: Vec<ConnectionMethod>)
        ensures
            methods@ == seq![ConnectionMethod::SSH, ConnectionMethod::HTTPS],
    {
        let mut methods: Vec<ConnectionMethod> = Vec::new();
        methods.push(ConnectionMethod::SSH);
        methods.push(ConnectionMethod::HTTPS);
        assert(methods@ =~= seq![ConnectionMethod::SSH, ConnectionMethod::HTTPS]);
        methods
    }

    /// The name under which the method is shown.
    pub fn name(&self) -> (name: String)
        ensures
            name@ == match *self {
                ConnectionMethod::SSH => "SSH"@,
                ConnectionMethod::HTTPS => "HTTPS"@,
            },
    {
        match self {
            ConnectionMethod::SSH => String::from_str("SSH"),
            ConnectionMethod::HTTPS => String::from_str("HTTPS"),
        }
    }

    /// The method that the lower-case word `word` names.
    pub fn from_lowercase(word: &str) -> (method: Option<ConnectionMethod>)
        ensures
            method == method_named(word@),
    {
        if same_text(word, "ssh") {
            Some(ConnectionMethod::SSH)
        } else if same_text(word, "https") {
            Some(ConnectionMethod::HTTPS)
        } else {
            None
        }
    }

    /// The method that `s` names, whatever its case. The failure quotes
    /// the word in lower case.
    pub fn parse(s: &str) -> (method: Result<ConnectionMethod, Failure>)
        ensures
            match method {
                Ok(method) => method_named(lowercase(s@)) == Some(method),
                Err(failure) => {
                    &&& method_named(lowercase(s@)) is None
                    &&& failure matches Failure::UnknownVariant { word } && word@ == lowercase(s@)
                },
            },
    {
        let word = to_lowercase(s);
        match ConnectionMethod::from_lowercase(word.as_str()) {
            Some(method) => Ok(method),
            None => Err(Failure::UnknownVariant { word }),
        }
    }
}

impl std::str::FromStr for ConnectionMethod {
    type Err = Failure;

    fn from_str(s: &str) -> (method: Result<Self, Self::Err>)
        ensures
            match method {
                Ok(method) => method_named(lowercase(s@)) == Some(method),
                Err(failure) => {
                    &&& method_named(lowercase(s@)) is None
                    &&& failure matches Failure::UnknownVariant { word } && word@ == lowercase(s@)
                },
            },
    {
        ConnectionMethod::parse(s)
    }
}

impl RepoHostName {
    /// Every host, in the order in which they are offered.
    pub fn all() -> (hosts: Vec<RepoHostName>)
        ensures
            hosts@ == seq![RepoHostName::GitHub, RepoHostName::GitLab],
    {
        let mut hosts: Vec<RepoHostName> = Vec::new();
        hosts.push(RepoHostName::GitHub);
        hosts.push(RepoHostName::GitLab);
        assert(hosts@ =~= seq![RepoHostName::GitHub, RepoHostName::GitLab]);
        hosts
    }

    /// The name under which the host is shown.
    pub fn name(&self) -> (name: String)
        ensures
            name@ == match *self {
                RepoHostName::GitHub => "GitHub"@,
                RepoHostName::GitLab => "GitLab"@,
            },
    {
        match self {
            RepoHostName::GitHub => String::from_str("GitHub"),
            RepoHostName::GitLab => String::from_str("GitLab"),
        }
    }

    /// The host that the lower-case word `word` names.
    pub fn from_lowercase(word: &str) -> (host: Option<RepoHostName>)
        ensures
            host == host_named(word@),
    {
        if same_text(word, "github") {
            Some(RepoHostName::GitHub)
        } else if same_text(word, "gitlab") {
            Some(RepoHostName::GitLab)
        } else {
            None
        }
    }

    /// The host that `s` names, whatever its case. The failure quotes the
    /// word in lower case.
    pub fn parse(s: &str) -> (host: Result<RepoHostName, Failure>)
        ensures
            match host {
                Ok(host) => host_named(lowercase(s@)) == Some(host),
                Err(failure) => {
                    &&& host_named(lowercase(s@)) is None
                    &&& failure matches Failure::UnknownVariant { word } && word@ == lowercase(s@)
                },
            },
    {
        let word = to_lowercase(s);
        match RepoHostName::from_lowercase(word.as_str()) {
            Some(host) => Ok(host),
            None => Err(Failure::UnknownVariant { word }),
        }
    }
}

impl std::str::FromStr for RepoHostName {
    type Err = Failure;

    fn from_str(s: &str) -> (host: Result<Self, Self::Err>)
        ensures
            match host {
                Ok(host) => host_named(lowercase(s@)) == Some(host),
                Err(failure) => {
                    &&& host_named(lowercase(s@)) is None
                    &&& failure matches Failure::UnknownVariant { word } && word@ == lowercase(s@)
                },
            },
    {
        RepoHostName::parse(s)
    }
}

impl RepoHost {
    /// The prefixes of a host.
    pub fn of(host: &RepoHostName) -> (prefixes: RepoHost)
        ensures
            prefixes.ssh_prefix@ == url_prefix(*host, ConnectionMethod::SSH),
            prefixes.https_prefix@ == url_prefix(*host, ConnectionMethod::HTTPS),
    {
        match host {
            RepoHostName::GitHub => RepoHost {
                ssh_prefix: "git@github.com:",
                https_prefix: "https://github.com/",
            },
            RepoHostName::GitLab => RepoHost {
                ssh_prefix: "git@gitlab.com:",
                https_prefix: "https://gitlab.com/",
            },
        }
    }
}

/// The URL under which the repository `repository`, given as `OWNER/NAME`,
/// is cloned from `host` by `method`. It never fails.
pub fn get_host_git_url(repository: &str, host: &RepoHostName, method: &ConnectionMethod) -> (url:
    Result<String, Failure>)
    ensures
        url is Ok,
        url->Ok_0@ == host_git_url(repository@, *host, *method),
{
    let repo_host = RepoHost::of(host);
    let mut url = match method {
        ConnectionMethod::SSH => String::from_str(repo_host.ssh_prefix),
        ConnectionMethod::HTTPS => String::from_str(repo_host.https_prefix),
    };
    url.append(repository);
    url.append(".git");
    Ok(url)
}

} // verus!
