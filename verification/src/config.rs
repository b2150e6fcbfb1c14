//! Loading the zone table out of the configuration text.
//!
//! The configuration is a JSON object with a `geo_zones` array; each entry
//! holds a `name`, a `cidr` prefix and a `nameserver` address, all strings.
//! The surrounding process reads the file; this module turns its text into
//! a well-formed [`ZoneTable`] or reports which zone was malformed — a
//! fatal startup error, never a per-packet one. What the outside parsers
//! hand back is fixed by name ([`json_model_of`], [`parsed_cidr`],
//! [`parsed_ip`]); everything between the model and the table is verified,
//! and [`parse_config`]'s contract fixes its whole result as a function of
//! the text.

use vstd::prelude::*;
use crate::net::{Cidr, IpAddress};
use crate::zones::{GeoZone, ZoneTable};
use crate::json::{JsonVal, json_model_of, parse_json_model, spec_field, spec_text_field};

verus! {

/// Why the configuration text was rejected.
#[derive(Debug)]
pub enum ConfigError {
    /// The text is not parseable JSON.
    NotJson,
    /// The JSON root has no `geo_zones` array, or a zone entry lacks one
    /// of its three string fields.
    Malformed,
    /// The named zone's `cidr` field is not a valid CIDR prefix.
    BadCidr { zone: String },
    /// The named zone's `nameserver` field is not a valid IP address.
    BadNameserver { zone: String },
}

/// The CIDR prefix that the configuration grammar assigns to a string, if
/// any: what `cidr`'s parser accepts, a function of the string alone.
pub uninterp spec fn parsed_cidr(s: Seq<char>) -> Option<Cidr>;

/// The IP address that a string denotes, if any: what the standard
/// library's address parser accepts, a function of the string alone.
pub uninterp spec fn parsed_ip(s: Seq<char>) -> Option<IpAddress>;

/// Relies on cidr's IpCidr parser (through cidr_utils): it accepts CIDR
/// notation of either family, and a parsed network's prefix length never
/// exceeds the address width of its family.
#[verifier::external_body]
fn parse_cidr(s: &str) -> (r: Option<Cidr>)
    ensures
        r == parsed_cidr(s@),
        r matches Some(c) ==> c.wf(),
{
    match <cidr_utils::cidr::IpCidr as core::str::FromStr>::from_str(s) {
        Ok(cidr_utils::cidr::IpCidr::V4(c)) => Some(Cidr::V4 {
            base: u32::from(c.first_address()),
            prefix: c.network_length(),
        }),
        Ok(cidr_utils::cidr::IpCidr::V6(c)) => Some(Cidr::V6 {
            base: u128::from(c.first_address()),
            prefix: c.network_length(),
        }),
        Err(_) => None,
    }
}

/// Relies on the standard library's IP address parser: `Some` exactly on
/// strings in IPv4 or IPv6 address notation.
#[verifier::external_body]
fn parse_ip(s: &str) -> (r: Option<IpAddress>)
    ensures
        r == parsed_ip(s@),
{
    match s.parse::<core::net::IpAddr>() {
        Ok(core::net::IpAddr::V4(a)) => Some(IpAddress::V4(u32::from(a))),
        Ok(core::net::IpAddr::V6(a)) => Some(IpAddress::V6(u128::from(a))),
        Err(_) => None,
    }
}

/// The zone owed for a given set of extracted fields: a field missing or
/// not a string is malformed; a present `cidr` or `nameserver` string that
/// its parser rejects faults the named zone, checked in that order.
pub open spec fn spec_zone_from_fields(
    name: Option<String>,
    cidr_text: Option<String>,
    ns_text: Option<String>,
) -> Result<GeoZone, ConfigError> {
    match name {
        None => Err(ConfigError::Malformed),
        Some(n) => match cidr_text {
            None => Err(ConfigError::Malformed),
            Some(ct) => match parsed_cidr(ct@) {
                None => Err(ConfigError::BadCidr { zone: n }),
                Some(cidr) => match ns_text {
                    None => Err(ConfigError::Malformed),
                    Some(nt) => match parsed_ip(nt@) {
                        None => Err(ConfigError::BadNameserver { zone: n }),
                        Some(nameserver) => Ok(GeoZone { name: n, cidr, nameserver }),
                    },
                },
            },
        },
    }
}

/// Builds one zone out of its three extracted fields — `None` standing for
/// a field that was missing or not a string. Succeeds if and only if all
/// three are present and the `cidr` and `nameserver` strings parse.
pub fn zone_from_fields(
    name: Option<String>,
    cidr_text: Option<String>,
    ns_text: Option<String>,
) -> (r: Result<GeoZone, ConfigError>)
    ensures
        r == spec_zone_from_fields(name, cidr_text, ns_text),
        r matches Ok(z) ==> z.wf(),
{
    let n = match name {
        None => {
            return Err(ConfigError::Malformed);
        },
        Some(n) => n,
    };
    let ct = match cidr_text {
        None => {
            return Err(ConfigError::Malformed);
        },
        Some(c) => c,
    };
    let cidr = match parse_cidr(ct.as_str()) {
        None => {
            return Err(ConfigError::BadCidr { zone: n });
        },
        Some(c) => c,
    };
    let nt = match ns_text {
        None => {
            return Err(ConfigError::Malformed);
        },
        Some(t) => t,
    };
    let nameserver = match parse_ip(nt.as_str()) {
        None => {
            return Err(ConfigError::BadNameserver { zone: n });
        },
        Some(a) => a,
    };
    Ok(GeoZone { name: n, cidr, nameserver })
}

/// The zone owed for one entry of the `geo_zones` array: its `name`,
/// `cidr` and `nameserver` string members, as [`spec_zone_from_fields`]
/// fixes them. An entry that is no object has no members, so it is
/// malformed.
pub open spec fn spec_zone_of(v: JsonVal) -> Result<GeoZone, ConfigError> {
    spec_zone_from_fields(
        spec_text_field(v, "name"@),
        spec_text_field(v, "cidr"@),
        spec_text_field(v, "nameserver"@),
    )
}

/// Reads one zone out of its JSON entry: extracts the three string
/// members and hands them to [`zone_from_fields`].
pub fn zone_of(v: &JsonVal) -> (r: Result<GeoZone, ConfigError>)
    ensures
        r == spec_zone_of(*v),
        r matches Ok(z) ==> z.wf(),
{
    let name = v.text_field(&"name".to_owned());
    let cidr_text = v.text_field(&"cidr".to_owned());
    let ns_text = v.text_field(&"nameserver".to_owned());
    zone_from_fields(name, cidr_text, ns_text)
}

/// The zones owed for the entries of the `geo_zones` array, in order, or
/// the first entry's fault.
pub open spec fn spec_zone_seq(entries: Seq<JsonVal>) -> Result<Seq<GeoZone>, ConfigError>
    decreases entries.len(),
{
    if entries.len() == 0 {
        Ok(Seq::<GeoZone>::empty())
    } else {
        match spec_zone_of(entries[0]) {
            Err(e) => Err(e),
            Ok(z) => match spec_zone_seq(entries.drop_first()) {
                Err(e) => Err(e),
                Ok(rest) => Ok(seq![z] + rest),
            },
        }
    }
}

/// The table owed for a configuration text's JSON model: unparseable text
/// is `NotJson`; a root without a `geo_zones` array member is malformed;
/// otherwise the zones of the array's entries, in configuration order.
pub open spec fn spec_parse_config(model: Option<JsonVal>) -> Result<Seq<GeoZone>, ConfigError> {
    match model {
        None => Err(ConfigError::NotJson),
        Some(root) => match spec_field(root, "geo_zones"@) {
            Some(JsonVal::Array(entries)) => spec_zone_seq(entries@),
            _ => Err(ConfigError::Malformed),
        },
    }
}

proof fn lemma_zone_seq_err(entries: Seq<JsonVal>, k: int, e: ConfigError)
    requires
        0 <= k < entries.len(),
        forall|i: int| 0 <= i < k ==> (#[trigger] spec_zone_of(entries[i])) is Ok,
        spec_zone_of(entries[k]) == Err::<GeoZone, ConfigError>(e),
    ensures
        spec_zone_seq(entries) == Err::<Seq<GeoZone>, ConfigError>(e),
    decreases k,
{
    if k > 0 {
        assert(entries.drop_first()[k - 1] == entries[k]);
        assert forall|i: int| 0 <= i < k - 1 implies (#[trigger] spec_zone_of(
            entries.drop_first()[i],
        )) is Ok by {
            assert(entries.drop_first()[i] == entries[i + 1]);
        }
        lemma_zone_seq_err(entries.drop_first(), k - 1, e);
    }
}

proof fn lemma_zone_seq_ok(entries: Seq<JsonVal>, zs: Seq<GeoZone>)
    requires
        zs.len() == entries.len(),
        forall|i: int|
            0 <= i < entries.len() ==> (#[trigger] spec_zone_of(entries[i])) == Ok::<
                GeoZone,
                ConfigError,
            >(zs[i]),
    ensures
        spec_zone_seq(entries) == Ok::<Seq<GeoZone>, ConfigError>(zs),
    decreases entries.len(),
{
    if entries.len() == 0 {
        assert(zs =~= Seq::<GeoZone>::empty());
    } else {
        assert forall|i: int| 0 <= i < entries.drop_first().len() implies (
        #[trigger] spec_zone_of(entries.drop_first()[i])) == Ok::<GeoZone, ConfigError>(
            zs.drop_first()[i],
        ) by {
            assert(entries.drop_first()[i] == entries[i + 1]);
            assert(zs.drop_first()[i] == zs[i + 1]);
        }
        lemma_zone_seq_ok(entries.drop_first(), zs.drop_first());
        assert(zs =~= seq![zs[0]] + zs.drop_first());
    }
}

/// Turns the configuration text into the zone table, exactly as
/// [`spec_parse_config`] fixes it on the text's JSON model: every
/// configured zone, parsed, exactly once, in configuration order — so the
/// lookup tie rule, earliest wins, reads straight off the file — or the
/// first fault found.
pub fn parse_config(text: &str) -> (r: Result<ZoneTable, ConfigError>)
    ensures
        match r {
            Ok(t) => spec_parse_config(json_model_of(text@)) == Ok::<Seq<GeoZone>, ConfigError>(
                t.zones@,
            ) && t.wf(),
            Err(e) => spec_parse_config(json_model_of(text@)) == Err::<Seq<GeoZone>, ConfigError>(
                e,
            ),
        },
{
    let root = match parse_json_model(text) {
        None => {
            return Err(ConfigError::NotJson);
        },
        Some(v) => v,
    };
    let entries: &Vec<JsonVal> = match root.field(&"geo_zones".to_owned()) {
        Some(JsonVal::Array(entries)) => entries,
        _ => {
            return Err(ConfigError::Malformed);
        },
    };
    let mut zones: Vec<GeoZone> = Vec::new();
    let n = entries.len();
    let mut k: usize = 0;
    while k < n
        invariant
            n == entries@.len(),
            k <= n,
            zones@.len() == k,
            spec_parse_config(json_model_of(text@)) == spec_zone_seq(entries@),
            forall|i: int|
                0 <= i < k ==> (#[trigger] spec_zone_of(entries@[i])) == Ok::<
                    GeoZone,
                    ConfigError,
                >(zones@[i]),
            forall|i: int| 0 <= i < k ==> (#[trigger] zones@[i]).wf(),
        decreases n - k,
    {
        match zone_of(&entries[k]) {
            Err(e) => {
                proof {
                    lemma_zone_seq_err(entries@, k as int, e);
                }
                return Err(e);
            },
            Ok(z) => {
                zones.push(z);
            },
        }
        k = k + 1;
    }
    proof {
        lemma_zone_seq_ok(entries@, zones@);
    }
    Ok(ZoneTable { zones })
}

} // verus!
