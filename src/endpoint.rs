//! The network addresses of the feeds, for the live venue and its test
//! environment.
use vstd::prelude::*;
use vstd::string::*;

verus! {

#[verifier::external_type_specification]
#[verifier::external_body]
pub struct ExUrl(url::Url);

#[verifier::external_type_specification]
#[verifier::external_body]
pub struct ExParseError(url::ParseError);

/// One logical feed.
#[derive(Clone, Copy, Debug, PartialEq, Eq, Structural)]
pub enum Feed {
    Spot,
    Linear,
    Inverse,
    Options,
    Private,
}

/// The live venue, or its test environment.
#[derive(Clone, Copy, Debug, PartialEq, Eq, Structural)]
pub enum Network {
    Mainnet,
    Testnet,
}

pub open spec fn host_spec(net: Network) -> Seq<char> {
    match net {
        Network::Mainnet => "wss://stream.bybit.com/v5/"@,
        Network::Testnet => "wss://stream-testnet.bybit.com/v5/"@,
    }
}

pub open spec fn path_spec(feed: Feed) -> Seq<char> {
    match feed {
        Feed::Spot => "public/spot"@,
        Feed::Linear => "public/linear"@,
        Feed::Inverse => "public/inverse"@,
        Feed::Options => "public/option"@,
        Feed::Private => "private"@,
    }
}

/// The address of `feed` on `net`.
pub open spec fn address_spec(feed: Feed, net: Network) -> Seq<char> {
    host_spec(net) + path_spec(feed)
}

/// The address of `feed` on `net`, as text.
pub fn address(feed: Feed, net: Network) -> (r: String)
    ensures
        r@ == address_spec(feed, net),
{
    let mut a = match net {
        Network::Mainnet => String::from_str("wss://stream.bybit.com/v5/"),
        Network::Testnet => String::from_str("wss://stream-testnet.bybit.com/v5/"),
    };
    let p = match feed {
        Feed::Spot => "public/spot",
        Feed::Linear => "public/linear",
        Feed::Inverse => "public/inverse",
        Feed::Options => "public/option",
        Feed::Private => "private",
    };
    a.append(p);
    a
}

/// Whether `url::Url::parse` accepts `s`.
pub uninterp spec fn url_parses(s: Seq<char>) -> bool;

/// Relies on url::Url::parse: `Ok` exactly for the text it accepts as an
/// absolute URL.
#[verifier::external_body]
fn parse_url(s: &str) -> (r: Result<url::Url, url::ParseError>)
    ensures
        r is Ok <==> url_parses(s@),
{
    url::Url::parse(s)
}

/// Why an endpoint could not be resolved.
#[derive(Debug)]
pub enum EndpointError {
    /// The address is no valid URL.
    InvalidUrl(url::ParseError),
}

/// The parsed address of `feed` on `net`, ready to connect to.
pub fn endpoint(feed: Feed, net: Network) -> (r: Result<url::Url, EndpointError>)
    ensures
        r is Ok <==> url_parses(address_spec(feed, net)),
{
    let a = address(feed, net);
    match parse_url(a.as_str()) {
        Ok(u) => Ok(u),
        Err(e) => Err(EndpointError::InvalidUrl(e)),
    }
}

} // verus!
