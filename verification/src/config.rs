//! The exporter's configuration: the port it listens on and the batteries
//! it reads. (The configuration file is read and decoded by the program
//! that embeds this library.)
use vstd::prelude::*;

use crate::text::{decimal, decimal_string, lemma_decimal_digits, lemma_decimal_round_trip, parse_decimal};

verus! {

/// The port the exporter listens on when the configuration names none.
pub const DEFAULT_PORT: u32 = 9422;

/// The exporter's configuration.
#[derive(Debug)]
pub struct Config {
    pub listen_port: Option<u32>,
    pub systems: Vec<System>,
}

/// One battery: the name it is exported under, the address of its API and
/// its serial number.
#[derive(Debug)]
pub struct System {
    pub host: Option<String>,
    pub url: Option<String>,
    pub sn: Option<String>,
}

/// An optional text, or the empty text when there is none.
pub open spec fn text_or_empty(t: Option<String>) -> Seq<char> {
    match t {
        Some(s) => s@,
        None => Seq::empty(),
    }
}

fn clone_or_empty(t: &Option<String>) -> (r: String)
    ensures
        r@ == text_or_empty(*t),
{
    match t {
        Some(s) => s.clone(),
        None => String::new(),
    }
}

/// The address the exporter listens on: every interface, at `port`.
pub open spec fn listen_address_for(port: u32) -> Seq<char> {
    "0.0.0.0:"@ + decimal(port as nat)
}

/// The listening address names the port it was made for: after the
/// "0.0.0.0:" prefix come only decimal digits, and they read back as the port.
pub proof fn lemma_listen_address_names_port(port: u32)
    ensures
        listen_address_for(port).len() > 8,
        listen_address_for(port).subrange(0, 8) == "0.0.0.0:"@,
        forall|i: int|
            8 <= i < listen_address_for(port).len() ==> '0' <= #[trigger] listen_address_for(
                port,
            )[i] <= '9',
        parse_decimal(listen_address_for(port).subrange(8, listen_address_for(port).len() as int))
            == port,
{
    reveal_strlit("0.0.0.0:");
    let a = listen_address_for(port);
    let d = decimal(port as nat);
    lemma_decimal_digits(port as nat);
    lemma_decimal_round_trip(port as nat);
    assert(a.subrange(0, 8) =~= "0.0.0.0:"@);
    assert(a.subrange(8, a.len() as int) =~= d);
    assert forall|i: int| 8 <= i < a.len() implies '0' <= #[trigger] a[i] <= '9' by {
        assert(a[i] == d[i - 8]);
    }
}

impl Config {
    /// The port to listen on: the configured one, or [`DEFAULT_PORT`].
    pub open spec fn spec_port(&self) -> u32 {
        match self.listen_port {
            Some(p) => p,
            None => DEFAULT_PORT,
        }
    }

    /// The port to listen on: the configured one, or [`DEFAULT_PORT`].
    pub fn port(&self) -> (p: u32)
        ensures
            p == self.spec_port(),
    {
        match self.listen_port {
            Some(p) => p,
            None => DEFAULT_PORT,
        }
    }

    /// The address to listen on, as `0.0.0.0:<port>`.
    pub fn listen_address(&self) -> (a: String)
        ensures
            a@ == listen_address_for(self.spec_port()),
    {
        let mut a = String::from_str("0.0.0.0:");
        let digits = decimal_string(self.port() as u64);
        a.append(digits.as_str());
        a
    }
}

impl System {
    /// The name the battery is exported under ("" when none is set).
    pub fn host_label(&self) -> (r: String)
        ensures
            r@ == text_or_empty(self.host),
    {
        clone_or_empty(&self.host)
    }

    /// The address of the battery's API ("" when none is set).
    pub fn api_url(&self) -> (r: String)
        ensures
            r@ == text_or_empty(self.url),
    {
        clone_or_empty(&self.url)
    }

    /// The serial number the battery is exported under ("" when none is set).
    pub fn sn_label(&self) -> (r: String)
        ensures
            r@ == text_or_empty(self.sn),
    {
        clone_or_empty(&self.sn)
    }
}

/// The version banner printed with the usage text: with a build time, the
/// version, the revision ("" when unknown) and the build time, one per
/// line; without one, the version alone.
pub open spec fn version_banner(
    version: Seq<char>,
    revision: Option<Seq<char>>,
    build_time: Option<Seq<char>>,
) -> Seq<char> {
    match build_time {
        Some(t) => "  version   : "@ + version + "\n  revision  : "@ + match revision {
            Some(r) => r,
            None => Seq::empty(),
        } + "\n  build time: "@ + t + "\n"@,
        None => "  version: "@ + version + "\n"@,
    }
}

/// The view of an optional text.
pub open spec fn str_view(t: Option<&str>) -> Option<Seq<char>> {
    match t {
        Some(s) => Some(s@),
        None => None,
    }
}

/// The version banner printed with the usage text.
pub fn version_info(version: &str, revision: Option<&str>, build_time: Option<&str>) -> (r:
    String)
    ensures
        r@ == version_banner(version@, str_view(revision), str_view(build_time)),
{
    match build_time {
        Some(t) => {
            let mut s = String::from_str("  version   : ");
            s.append(version);
            s.append("\n  revision  : ");
            match revision {
                Some(rev) => s.append(rev),
                None => {},
            }
            s.append("\n  build time: ");
            s.append(t);
            s.append("\n");
            proof {
                if revision is None {
                    assert(s@ =~= version_banner(version@, str_view(revision), str_view(build_time)));
                }
            }
            s
        },
        None => {
            let mut s = String::from_str("  version: ");
            s.append(version);
            s.append("\n");
            s
        },
    }
}

} // verus!
