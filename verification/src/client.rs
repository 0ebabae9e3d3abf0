//! Choice of the storage backend from the flags of the environment.

use vstd::prelude::*;
use vstd::string::*;

verus! {

/// The storage backend a request is served by.
#[derive(Clone, Copy, Debug, PartialEq, Eq, Structural)]
pub enum ClientConfig {
    /// A stub that answers from a recorded response and never uses the network.
    Mock,
    /// A storage emulator at a fixed local endpoint.
    Local,
    /// The storage service in its fixed region.
    Cloud,
}

/// Which backend the two flags select. A mock flag that is set, whatever its
/// value, selects the mock. Without it, a local flag with a non-empty value
/// selects the local emulator and one with an empty value the cloud. With
/// neither flag set there is no backend.
pub open spec fn resolution(mock_flag: Option<Seq<char>>, local_flag: Option<Seq<char>>) -> Option<
    ClientConfig,
> {
    match mock_flag {
        Some(_) => Some(ClientConfig::Mock),
        None => match local_flag {
            None => None,
            Some(v) => if v.len() != 0 {
                Some(ClientConfig::Local)
            } else {
                Some(ClientConfig::Cloud)
            },
        },
    }
}

/// Selects the backend, or `None` where neither flag is set.
pub fn try_resolve_client(mock_flag: &Option<String>, local_flag: &Option<String>) -> (res: Option<
    ClientConfig,
>)
    ensures
        res == resolution(flag_view(*mock_flag), flag_view(*local_flag)),
{
    match mock_flag {
        Some(_) => Some(ClientConfig::Mock),
        None => match local_flag {
            None => None,
            Some(v) => {
                if !v.as_str().is_empty() {
                    Some(ClientConfig::Local)
                } else {
                    Some(ClientConfig::Cloud)
                }
            },
        },
    }
}

/// Selects the backend. At least one of the two flags must be set.
pub fn resolve_client(mock_flag: &Option<String>, local_flag: &Option<String>) -> (res:
    ClientConfig)
    requires
        mock_flag is Some || local_flag is Some,
    ensures
        Some(res) == resolution(flag_view(*mock_flag), flag_view(*local_flag)),
{
    if mock_flag.is_some() {
        ClientConfig::Mock
    } else {
        let value = local_flag.as_ref().unwrap();
        if !value.as_str().is_empty() {
            ClientConfig::Local
        } else {
            ClientConfig::Cloud
        }
    }
}

/// The view of a flag as it was read from the environment.
pub open spec fn flag_view(flag: Option<String>) -> Option<Seq<char>> {
    match flag {
        None => None,
        Some(v) => Some(v@),
    }
}

impl ClientConfig {
    /// The region label the backend is addressed under; the mock has none of
    /// its own.
    pub open spec fn region_spec(self) -> Option<Seq<char>> {
        match self {
            ClientConfig::Mock => None,
            ClientConfig::Local => Some("ap-northeast-1"@),
            ClientConfig::Cloud => Some("ap-northeast-1"@),
        }
    }

    /// The endpoint that replaces the region's own; only the local emulator
    /// has one.
    pub open spec fn endpoint_spec(self) -> Option<Seq<char>> {
        match self {
            ClientConfig::Local => Some("http://host.docker.internal:8000"@),
            _ => None,
        }
    }

    /// Directory and file name of the recorded response; only the mock has
    /// them.
    pub open spec fn fixture_spec(self) -> Option<(Seq<char>, Seq<char>)> {
        match self {
            ClientConfig::Mock => Some(("mock_data"@, "s3_test.json"@)),
            _ => None,
        }
    }

    /// The region label the backend is addressed under.
    pub fn region(&self) -> (r: Option<String>)
        ensures
            flag_view(r) == self.region_spec(),
    {
        match self {
            ClientConfig::Mock => None,
            ClientConfig::Local => Some(String::from_str("ap-northeast-1")),
            ClientConfig::Cloud => Some(String::from_str("ap-northeast-1")),
        }
    }

    /// The endpoint that replaces the region's own.
    pub fn endpoint(&self) -> (r: Option<String>)
        ensures
            flag_view(r) == self.endpoint_spec(),
    {
        match self {
            ClientConfig::Local => Some(String::from_str("http://host.docker.internal:8000")),
            _ => None,
        }
    }

    /// Directory and file name of the recorded response.
    pub fn fixture(&self) -> (r: Option<(String, String)>)
        ensures
            match r {
                None => self.fixture_spec() is None,
                Some(f) => self.fixture_spec() == Some((f.0@, f.1@)),
            },
    {
        match self {
            ClientConfig::Mock => Some(
                (String::from_str("mock_data"), String::from_str("s3_test.json")),
            ),
            _ => None,
        }
    }
}

/// With the mock flag set the backend is the mock, which answers from its
/// recorded response. Without it, a local flag
/// with a non-empty value selects the emulator at its fixed endpoint and
/// region, one with an empty value the cloud in the same region, and none
/// at all no backend.
pub proof fn law_resolution(mock_flag: Option<Seq<char>>, local_flag: Option<Seq<char>>)
    ensures
        mock_flag is Some ==> resolution(mock_flag, local_flag) == Some(ClientConfig::Mock),
        mock_flag is None && local_flag is Some && local_flag->Some_0.len() > 0 ==> resolution(
            mock_flag,
            local_flag,
        ) == Some(ClientConfig::Local),
        mock_flag is None && local_flag is Some && local_flag->Some_0.len() == 0 ==> resolution(
            mock_flag,
            local_flag,
        ) == Some(ClientConfig::Cloud),
        mock_flag is None && local_flag is None ==> resolution(mock_flag, local_flag) is None,
        ClientConfig::Mock.fixture_spec() == Some(("mock_data"@, "s3_test.json"@)),
        ClientConfig::Local.endpoint_spec() == Some("http://host.docker.internal:8000"@),
        ClientConfig::Local.region_spec() == Some("ap-northeast-1"@),
        ClientConfig::Cloud.region_spec() == Some("ap-northeast-1"@),
        ClientConfig::Cloud.endpoint_spec() is None,
{
}

} // verus!
