//! A local audio playback engine: a single-owner playback state machine, a
//! seek engine with a native and a fallback strategy, and a bounded LRU disk
//! cache of downloaded audio bytes. The surrounding process supplies the
//! clock, the filesystem and the network; every decision the engine makes is
//! verified here.

use vstd::prelude::*;
use vstd::string::StringExecFns;

pub mod cache;
pub mod engine;
pub mod jellyfin;
pub mod player;

verus! {

/// The error taxonomy of the engine.
#[derive(Debug, Clone, PartialEq)]
pub enum AudioError {
    /// A download failed or returned a non-success status.
    NetworkError(String),
    /// A read, write or delete of a local file failed.
    IoError(String),
    /// Sample data was corrupt or unsupported.
    DecodeError(String),
    /// No recognizable audio track was found in the container.
    UnsupportedFormat,
    /// A command was sent after shutdown.
    ChannelClosed,
    /// No usable byte locator was supplied.
    MissingSource,
}

impl AudioError {
    /// The error as a human-readable message, as broadcast in error
    /// events.
    pub fn message(&self) -> (r: String)
        ensures
            r@ == (match self {
                AudioError::NetworkError(m) => "network error: "@ + m@,
                AudioError::IoError(m) => "i/o error: "@ + m@,
                AudioError::DecodeError(m) => "decode error: "@ + m@,
                AudioError::UnsupportedFormat => "no valid audio track found"@,
                AudioError::ChannelClosed => "player is shut down"@,
                AudioError::MissingSource => "no usable byte source"@,
            }),
    {
        match self {
            AudioError::NetworkError(m) => {
                let mut r: String = "network error: ".to_owned();
                r.append(m.as_str());
                r
            }
            AudioError::IoError(m) => {
                let mut r: String = "i/o error: ".to_owned();
                r.append(m.as_str());
                r
            }
            AudioError::DecodeError(m) => {
                let mut r: String = "decode error: ".to_owned();
                r.append(m.as_str());
                r
            }
            AudioError::UnsupportedFormat => "no valid audio track found".to_owned(),
            AudioError::ChannelClosed => "player is shut down".to_owned(),
            AudioError::MissingSource => "no usable byte source".to_owned(),
        }
    }
}

/// A copy of a string vector whose mathematical value is the same.
pub(crate) fn clone_string_vec(v: &Vec<String>) -> (r: Vec<String>)
    ensures
        r@ == v@,
{
    let mut r: Vec<String> = Vec::new();
    let n: usize = v.len();
    let mut i: usize = 0;
    while i < n
        invariant
            n == v@.len(),
            i <= n,
            r@ == v@.take(i as int),
        decreases n - i,
    {
        r.push(v[i].clone());
        proof {
            assert(r@ =~= v@.take(i + 1));
        }
        i = i + 1;
    }
    proof {
        assert(v@.take(n as int) =~= v@);
    }
    r
}

} // verus!
