//! Measurement data model: the raw fields reported by the measurement
//! tool, the canonical cached record, and the exact rate derivation
//! between the two.
//!
//! Fractional quantities (rates, latencies, distances) are held in
//! micro-units: one millionth of the named unit, as unsigned integers.
//! A rate field of `50_000_000_000_000` micro-bits per second is
//! 50,000,000 bits per second.

use vstd::prelude::*;

verus! {

/// Micro-bits per second in one megabit per second
/// (1 Mbps = 10^6 bps = 10^12 micro-bps).
pub const MICRO_BPS_PER_MBPS: u64 = 1_000_000_000_000;

/// Information about the client that ran the measurement.
///
/// Free-form fields reported by the measurement tool; they are carried
/// verbatim and never interpreted.
#[derive(Debug, PartialEq, Clone)]
pub struct ClientInfo {
    /// Client's country code or name.
    pub country: String,
    /// Client's IP address.
    pub ip: String,
    /// Client's Internet Service Provider.
    pub isp: String,
    /// ISP download average speed as a string.
    pub ispdlavg: String,
    /// ISP rating as a string.
    pub isprating: String,
    /// ISP upload average speed as a string.
    pub ispulavg: String,
    /// Client's latitude coordinate as a string.
    pub lat: String,
    /// Whether the client is logged in (string "true"/"false").
    pub loggedin: String,
    /// Client's longitude coordinate as a string.
    pub lon: String,
    /// Client rating as a string.
    pub rating: String,
}

impl ClientInfo {
    /// A copy of `self`, field by field.
    pub fn duplicate(&self) -> (r: ClientInfo)
        ensures
            r == *self,
    {
        ClientInfo {
            country: self.country.clone(),
            ip: self.ip.clone(),
            isp: self.isp.clone(),
            ispdlavg: self.ispdlavg.clone(),
            isprating: self.isprating.clone(),
            ispulavg: self.ispulavg.clone(),
            lat: self.lat.clone(),
            loggedin: self.loggedin.clone(),
            lon: self.lon.clone(),
            rating: self.rating.clone(),
        }
    }
}

impl Default for ClientInfo {
    /// All fields empty.
    fn default() -> (d: ClientInfo)
        ensures
            d.country@ == Seq::<char>::empty(),
            d.ip@ == Seq::<char>::empty(),
            d.isp@ == Seq::<char>::empty(),
            d.ispdlavg@ == Seq::<char>::empty(),
            d.isprating@ == Seq::<char>::empty(),
            d.ispulavg@ == Seq::<char>::empty(),
            d.lat@ == Seq::<char>::empty(),
            d.loggedin@ == Seq::<char>::empty(),
            d.lon@ == Seq::<char>::empty(),
            d.rating@ == Seq::<char>::empty(),
    {
        ClientInfo {
            country: String::new(),
            ip: String::new(),
            isp: String::new(),
            ispdlavg: String::new(),
            isprating: String::new(),
            ispulavg: String::new(),
            lat: String::new(),
            loggedin: String::new(),
            lon: String::new(),
            rating: String::new(),
        }
    }
}

/// Information about the server used in the measurement.
///
/// Free-form fields reported by the measurement tool; carried verbatim.
/// `d` (distance in kilometers) and `latency` (milliseconds) are held
/// in micro-units.
#[derive(Debug, PartialEq, Clone)]
pub struct ServerInfo {
    /// Server country code.
    pub cc: String,
    /// Server country name.
    pub country: String,
    /// Distance from client to server, in micro-kilometers.
    pub d: u64,
    /// Server hostname.
    pub host: String,
    /// Server identifier.
    pub id: String,
    /// Server latitude.
    pub lat: String,
    /// Server latency, in micro-milliseconds.
    pub latency: u64,
    /// Server longitude.
    pub lon: String,
    /// Server name.
    pub name: String,
    /// Server sponsor or operator.
    pub sponsor: String,
    /// URL of the server.
    pub url: String,
}

impl ServerInfo {
    /// A copy of `self`, field by field.
    pub fn duplicate(&self) -> (r: ServerInfo)
        ensures
            r == *self,
    {
        ServerInfo {
            cc: self.cc.clone(),
            country: self.country.clone(),
            d: self.d,
            host: self.host.clone(),
            id: self.id.clone(),
            lat: self.lat.clone(),
            latency: self.latency,
            lon: self.lon.clone(),
            name: self.name.clone(),
            sponsor: self.sponsor.clone(),
            url: self.url.clone(),
        }
    }
}

impl Default for ServerInfo {
    /// All strings empty, all numbers zero.
    fn default() -> (d: ServerInfo)
        ensures
            d.cc@ == Seq::<char>::empty(),
            d.country@ == Seq::<char>::empty(),
            d.d == 0,
            d.host@ == Seq::<char>::empty(),
            d.id@ == Seq::<char>::empty(),
            d.lat@ == Seq::<char>::empty(),
            d.latency == 0,
            d.lon@ == Seq::<char>::empty(),
            d.name@ == Seq::<char>::empty(),
            d.sponsor@ == Seq::<char>::empty(),
            d.url@ == Seq::<char>::empty(),
    {
        ServerInfo {
            cc: String::new(),
            country: String::new(),
            d: 0,
            host: String::new(),
            id: String::new(),
            lat: String::new(),
            latency: 0,
            lon: String::new(),
            name: String::new(),
            sponsor: String::new(),
            url: String::new(),
        }
    }
}

/// The measurement tool's reported fields, one successful run's worth.
///
/// Rates are in micro-bits per second, ping in micro-milliseconds.
/// `share` is the tool's optional opaque payload, carried as its
/// canonical (compactly re-rendered) JSON text.
#[derive(Debug, PartialEq, Clone)]
pub struct SpeedTestResponse {
    /// Number of bytes received during the test.
    pub bytes_received: u64,
    /// Number of bytes sent during the test.
    pub bytes_sent: u64,
    /// Client information.
    pub client: ClientInfo,
    /// Download rate, in micro-bits per second.
    pub download: u64,
    /// Ping time, in micro-milliseconds.
    pub ping: u64,
    /// Server information.
    pub server: ServerInfo,
    /// Optional opaque payload, as its canonical JSON text.
    pub share: Option<String>,
    /// ISO-8601 timestamp of the test, verbatim.
    pub timestamp: String,
    /// Upload rate, in micro-bits per second.
    pub upload: u64,
}

/// A rate in megabits per second, held exactly as a whole part and a
/// fractional part in trillionths of a megabit per second.
///
/// One trillionth of a megabit per second is one micro-bit per second,
/// so a well-formed `Mbps` represents a micro-bps rate with no loss:
/// `whole * 1_000_000_000_000 + frac`.
#[derive(Debug, PartialEq, Eq, Structural, Clone, Copy)]
pub struct Mbps {
    /// Whole megabits per second.
    pub whole: u64,
    /// Fraction, in trillionths of a megabit per second; less than
    /// `MICRO_BPS_PER_MBPS` when well-formed.
    pub frac: u64,
}

/// The megabits-per-second value that exactly equals a rate of
/// `bps_micro` micro-bits per second.
pub open spec fn spec_mbps(bps_micro: u64) -> Mbps {
    Mbps {
        whole: (bps_micro / (MICRO_BPS_PER_MBPS as u64)) as u64,
        frac: (bps_micro % (MICRO_BPS_PER_MBPS as u64)) as u64,
    }
}

/// Converts a rate in micro-bits per second to megabits per second,
/// exactly: the result is the division of the rate by one million
/// (bps to Mbps), with the remainder kept as the fractional part.
pub fn mbps_from_bps(bps_micro: u64) -> (m: Mbps)
    ensures
        m == spec_mbps(bps_micro),
        m.whole * MICRO_BPS_PER_MBPS + m.frac == bps_micro,
        m.frac < MICRO_BPS_PER_MBPS,
{
    let m = Mbps { whole: bps_micro / MICRO_BPS_PER_MBPS, frac: bps_micro % MICRO_BPS_PER_MBPS };
    m
}

/// The canonical, query-facing record derived from one measurement.
///
/// Rates are kept both in micro-bits per second (`*_bps`) and in exact
/// megabits per second (`*_mbps`); a well-formed value always satisfies
/// `*_mbps == spec_mbps(*_bps)`.
#[derive(Debug, PartialEq, Clone)]
pub struct SpeedTestResult {
    /// Number of bytes received.
    pub bytes_received: u64,
    /// Number of bytes sent.
    pub bytes_sent: u64,
    /// Download rate, in micro-bits per second.
    pub download_bps: u64,
    /// Upload rate, in micro-bits per second.
    pub upload_bps: u64,
    /// Download rate in megabits per second, exactly `download_bps`
    /// divided by one million bps per Mbps.
    pub download_mbps: Mbps,
    /// Upload rate in megabits per second, exactly `upload_bps`
    /// divided by one million bps per Mbps.
    pub upload_mbps: Mbps,
    /// Ping time, in micro-milliseconds.
    pub ping_ms: u64,
    /// Client information, verbatim from the measurement.
    pub client: ClientInfo,
    /// Server information, verbatim from the measurement.
    pub server: ServerInfo,
    /// Optional opaque payload from the measurement, as its canonical
    /// JSON text.
    pub share: Option<String>,
    /// Timestamp of the measurement, verbatim.
    pub timestamp: String,
}

/// A canonical record is well-formed when each megabits-per-second rate
/// is exactly the corresponding bits-per-second rate divided by one
/// million.
pub open spec fn result_wf(c: SpeedTestResult) -> bool {
    &&& c.download_mbps == spec_mbps(c.download_bps)
    &&& c.upload_mbps == spec_mbps(c.upload_bps)
}

impl SpeedTestResult {
    /// A copy of `self`, field by field.
    pub fn duplicate(&self) -> (r: SpeedTestResult)
        ensures
            r == *self,
    {
        SpeedTestResult {
            bytes_received: self.bytes_received,
            bytes_sent: self.bytes_sent,
            download_bps: self.download_bps,
            upload_bps: self.upload_bps,
            download_mbps: self.download_mbps,
            upload_mbps: self.upload_mbps,
            ping_ms: self.ping_ms,
            client: self.client.duplicate(),
            server: self.server.duplicate(),
            share: match &self.share {
                Some(s) => Some(s.clone()),
                None => None,
            },
            timestamp: self.timestamp.clone(),
        }
    }
}

/// Derives the canonical record from one raw measurement: byte counts,
/// rates, ping, descriptors, payload and timestamp are copied verbatim,
/// and each megabits-per-second rate is derived exactly from the
/// bits-per-second rate.
///
/// For every raw measurement, the result satisfies `result_wf`: the
/// download and upload Mbps rates equal the bps rates divided by one
/// million, exactly.
pub fn canonicalize(resp: SpeedTestResponse) -> (c: SpeedTestResult)
    ensures
        c.bytes_received == resp.bytes_received,
        c.bytes_sent == resp.bytes_sent,
        c.download_bps == resp.download,
        c.upload_bps == resp.upload,
        c.download_mbps == spec_mbps(resp.download),
        c.upload_mbps == spec_mbps(resp.upload),
        c.ping_ms == resp.ping,
        c.client == resp.client,
        c.server == resp.server,
        c.share == resp.share,
        c.timestamp == resp.timestamp,
        result_wf(c),
{
    let download_mbps = mbps_from_bps(resp.download);
    let upload_mbps = mbps_from_bps(resp.upload);
    SpeedTestResult {
        bytes_received: resp.bytes_received,
        bytes_sent: resp.bytes_sent,
        download_bps: resp.download,
        upload_bps: resp.upload,
        download_mbps,
        upload_mbps,
        ping_ms: resp.ping,
        client: resp.client,
        server: resp.server,
        share: resp.share,
        timestamp: resp.timestamp,
    }
}

} // verus!
