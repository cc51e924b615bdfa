//! Error taxonomy of the core.
//!
//! Inside the engines, errors convert to reconnection or failure events;
//! `EffectCanceled` is the sentinel for an effect aborted by a state
//! transition and is always filtered to no event at all.

use vstd::prelude::*;

use crate::transport::{TransportResponse, TransportResponseModel};

verus! {

/// Everything that can go wrong between the core and the service.
#[derive(Debug, PartialEq)]
pub enum PubNubError {
    /// The transport layer failed (connection, DNS, TLS, interrupted I/O).
    Transport {
        /// What the transport reported.
        details: String,
        /// The response that accompanied the failure, when there was one.
        response: Option<TransportResponse>,
    },
    /// Publication of a request failed.
    PublishError {
        /// What went wrong.
        details: String,
    },
    /// A payload could not be encoded.
    Serialization {
        /// What went wrong.
        details: String,
    },
    /// A payload could not be decoded.
    Deserialization {
        /// What went wrong.
        details: String,
    },
    /// A key the operation needs is missing from the configuration.
    NoKey {
        /// Which key is missing.
        details: String,
    },
    /// The client could not be initialized.
    ClientInitialization {
        /// What went wrong.
        details: String,
    },
    /// The cryptor could not be initialized.
    CryptoInitialization {
        /// What went wrong.
        details: String,
    },
    /// Data could not be encrypted.
    Encryption {
        /// What went wrong.
        details: String,
    },
    /// Data could not be decrypted.
    Decryption {
        /// What went wrong.
        details: String,
    },
    /// An in-flight effect was aborted by a state transition.
    EffectCanceled,
    /// The subscription could not be initialized.
    SubscribeInitialization {
        /// What went wrong.
        details: String,
    },
    /// The service answered with a structured error body.
    API {
        /// Operation status (HTTP) code.
        status: u16,
        /// A message explaining what went wrong.
        message: String,
        /// Service which reported the error.
        service: Option<String>,
        /// Channels affected by the error.
        affected_channels: Option<Vec<String>>,
        /// Channel groups affected by the error.
        affected_channel_groups: Option<Vec<String>>,
    },
}

/// Mathematical content of a [`PubNubError`].
pub ghost enum PubNubErrorModel {
    Transport { details: Seq<char>, response: Option<TransportResponseModel> },
    PublishError { details: Seq<char> },
    Serialization { details: Seq<char> },
    Deserialization { details: Seq<char> },
    NoKey { details: Seq<char> },
    ClientInitialization { details: Seq<char> },
    CryptoInitialization { details: Seq<char> },
    Encryption { details: Seq<char> },
    Decryption { details: Seq<char> },
    EffectCanceled,
    SubscribeInitialization { details: Seq<char> },
    API {
        status: u16,
        message: Seq<char>,
        service: Option<Seq<char>>,
        affected_channels: Option<Seq<Seq<char>>>,
        affected_channel_groups: Option<Seq<Seq<char>>>,
    },
}

impl DeepView for PubNubError {
    type V = PubNubErrorModel;

    open spec fn deep_view(&self) -> PubNubErrorModel {
        match self {
            PubNubError::Transport { details, response } => PubNubErrorModel::Transport {
                details: details.deep_view(),
                response: response.deep_view(),
            },
            PubNubError::PublishError { details } => PubNubErrorModel::PublishError {
                details: details.deep_view(),
            },
            PubNubError::Serialization { details } => PubNubErrorModel::Serialization {
                details: details.deep_view(),
            },
            PubNubError::Deserialization { details } => PubNubErrorModel::Deserialization {
                details: details.deep_view(),
            },
            PubNubError::NoKey { details } => PubNubErrorModel::NoKey {
                details: details.deep_view(),
            },
            PubNubError::ClientInitialization { details } => PubNubErrorModel::ClientInitialization {
                details: details.deep_view(),
            },
            PubNubError::CryptoInitialization { details } => PubNubErrorModel::CryptoInitialization {
                details: details.deep_view(),
            },
            PubNubError::Encryption { details } => PubNubErrorModel::Encryption {
                details: details.deep_view(),
            },
            PubNubError::Decryption { details } => PubNubErrorModel::Decryption {
                details: details.deep_view(),
            },
            PubNubError::EffectCanceled => PubNubErrorModel::EffectCanceled,
            PubNubError::SubscribeInitialization { details } => {
                PubNubErrorModel::SubscribeInitialization { details: details.deep_view() }
            },
            PubNubError::API {
                status,
                message,
                service,
                affected_channels,
                affected_channel_groups,
            } => PubNubErrorModel::API {
                status: *status,
                message: message.deep_view(),
                service: service.deep_view(),
                affected_channels: affected_channels.deep_view(),
                affected_channel_groups: affected_channel_groups.deep_view(),
            },
        }
    }
}

/// Copy a string vector, element by element.
pub fn clone_string_vec(v: &Vec<String>) -> (r: Vec<String>)
    ensures
        r.deep_view() == v.deep_view(),
{
    let mut r: Vec<String> = Vec::new();
    let n = v.len();
    let mut i: usize = 0;
    while i < n
        invariant
            n == v.len(),
            0 <= i <= n,
            r@.len() == i,
            forall|j: int| 0 <= j < i ==> #[trigger] r@[j]@ == v@[j]@,
        decreases n - i,
    {
        let x = v[i].clone();
        proof {
            assert(x@ == v@[i as int]@);
        }
        r.push(x);
        i = i + 1;
    }
    proof {
        assert(r.deep_view() =~= v.deep_view());
    }
    r
}

/// Copy a vector of string pairs, element by element.
pub fn clone_string_pairs(v: &Vec<(String, String)>) -> (r: Vec<(String, String)>)
    ensures
        r.deep_view() == v.deep_view(),
{
    let mut r: Vec<(String, String)> = Vec::new();
    let n = v.len();
    let mut i: usize = 0;
    while i < n
        invariant
            n == v.len(),
            0 <= i <= n,
            r@.len() == i,
            forall|j: int| 0 <= j < i ==> #[trigger] r@[j].0@ == v@[j].0@ && r@[j].1@ == v@[j].1@,
        decreases n - i,
    {
        let first = v[i].0.clone();
        let second = v[i].1.clone();
        r.push((first, second));
        i = i + 1;
    }
    proof {
        assert(r.deep_view() =~= v.deep_view());
    }
    r
}

/// Copy an optional vector of string pairs, preserving its content.
pub fn clone_opt_string_pairs(v: &Option<Vec<(String, String)>>) -> (r: Option<
    Vec<(String, String)>,
>)
    ensures
        r.deep_view() == v.deep_view(),
{
    match v {
        Some(s) => Some(clone_string_pairs(s)),
        None => None,
    }
}

/// Copy an optional string, preserving its content.
pub fn clone_opt_string(v: &Option<String>) -> (r: Option<String>)
    ensures
        r.deep_view() == v.deep_view(),
{
    match v {
        Some(s) => Some(s.clone()),
        None => None,
    }
}

/// Copy an optional string vector, preserving its content.
pub fn clone_opt_string_vec(v: &Option<Vec<String>>) -> (r: Option<Vec<String>>)
    ensures
        r.deep_view() == v.deep_view(),
{
    match v {
        Some(s) => Some(clone_string_vec(s)),
        None => None,
    }
}

impl Clone for TransportResponse {
    /// Copy of the response with the same status, headers and body.
    fn clone(&self) -> (r: Self)
        ensures
            r.deep_view() == self.deep_view(),
    {
        let headers = clone_string_pairs(&self.headers);
        let body: Option<Vec<u8>> = match &self.body {
            Some(b) => {
                let mut copy: Vec<u8> = Vec::new();
                let m = b.len();
                let mut j: usize = 0;
                while j < m
                    invariant
                        m == b.len(),
                        0 <= j <= m,
                        copy@ =~= b@.take(j as int),
                    decreases m - j,
                {
                    copy.push(b[j]);
                    j = j + 1;
                }
                proof {
                    assert(b@.take(m as int) =~= b@);
                }
                Some(copy)
            },
            None => None,
        };
        TransportResponse { status: self.status, headers, body }
    }
}

impl Clone for PubNubError {
    /// Copy of the error with the same content.
    fn clone(&self) -> (r: Self)
        ensures
            r.deep_view() == self.deep_view(),
    {
        match self {
            PubNubError::Transport { details, response } => PubNubError::Transport {
                details: details.clone(),
                response: match response {
                    Some(resp) => Some(resp.clone()),
                    None => None,
                },
            },
            PubNubError::PublishError { details } => PubNubError::PublishError {
                details: details.clone(),
            },
            PubNubError::Serialization { details } => PubNubError::Serialization {
                details: details.clone(),
            },
            PubNubError::Deserialization { details } => PubNubError::Deserialization {
                details: details.clone(),
            },
            PubNubError::NoKey { details } => PubNubError::NoKey { details: details.clone() },
            PubNubError::ClientInitialization { details } => PubNubError::ClientInitialization {
                details: details.clone(),
            },
            PubNubError::CryptoInitialization { details } => PubNubError::CryptoInitialization {
                details: details.clone(),
            },
            PubNubError::Encryption { details } => PubNubError::Encryption {
                details: details.clone(),
            },
            PubNubError::Decryption { details } => PubNubError::Decryption {
                details: details.clone(),
            },
            PubNubError::EffectCanceled => PubNubError::EffectCanceled,
            PubNubError::SubscribeInitialization { details } => {
                PubNubError::SubscribeInitialization { details: details.clone() }
            },
            PubNubError::API {
                status,
                message,
                service,
                affected_channels,
                affected_channel_groups,
            } => PubNubError::API {
                status: *status,
                message: message.clone(),
                service: clone_opt_string(service),
                affected_channels: clone_opt_string_vec(affected_channels),
                affected_channel_groups: clone_opt_string_vec(affected_channel_groups),
            },
        }
    }
}

impl PubNubError {
    /// The HTTP status that accompanied the error: the status of an `API`
    /// error, the status of the response attached to a `Transport` error,
    /// and zero anywhere else.
    pub open spec fn spec_status(&self) -> u16 {
        match self.deep_view() {
            PubNubErrorModel::API { status, .. } => status,
            PubNubErrorModel::Transport { response, .. } => match response {
                Some(resp) => resp.status,
                None => 0,
            },
            _ => 0,
        }
    }

    /// The HTTP status that accompanied the error, or zero when it
    /// carried none.
    pub fn status(&self) -> (r: u16)
        ensures
            r == self.spec_status(),
    {
        match self {
            PubNubError::API { status, .. } => *status,
            PubNubError::Transport { response: Some(resp), .. } => resp.status,
            _ => 0,
        }
    }

    /// General API call error: reports uninitialized request parameters
    /// or a validation failure, with status 400 unless another one is
    /// given.
    pub fn general_api_error(message: &str, status: Option<u16>) -> (r: Self)
        ensures
            r.deep_view() == (PubNubErrorModel::API {
                status: status.unwrap_or(400u16),
                message: message@,
                service: None,
                affected_channels: None,
                affected_channel_groups: None,
            }),
    {
        PubNubError::API {
            status: match status {
                Some(s) => s,
                None => 400,
            },
            message: message.to_owned(),
            service: None,
            affected_channels: None,
            affected_channel_groups: None,
        }
    }
}

} // verus!
