//! DNS record types, as far as the proxy tells them apart.

use hickory_proto::rr::RecordType;
use vstd::prelude::*;

verus! {

/// The record types that the proxy treats differently; all others are one.
#[derive(Debug, Clone, Copy, PartialEq, Eq, Structural)]
pub enum RecordKind {
    A,
    Aaaa,
    Txt,
    Mx,
    Other,
}

/// The upstream lookups that the proxy can make.
#[derive(Debug, Clone, Copy, PartialEq, Eq, Structural)]
pub enum LookupKind {
    /// Address lookup, for `A` and `AAAA` queries.
    Ip,
    /// Text lookup, for `TXT` queries.
    Txt,
    /// Mail-exchange lookup, for `MX` queries.
    Mx,
}

/// The kind of a record type, by its number on the wire.
pub open spec fn kind_of(code: u16) -> RecordKind {
    if code == 1 {
        RecordKind::A
    } else if code == 28 {
        RecordKind::Aaaa
    } else if code == 16 {
        RecordKind::Txt
    } else if code == 15 {
        RecordKind::Mx
    } else {
        RecordKind::Other
    }
}

/// The lookup that answers a kind of query; none for the kinds that the
/// proxy does not forward.
pub open spec fn lookup_for(kind: RecordKind) -> Option<LookupKind> {
    match kind {
        RecordKind::A => Some(LookupKind::Ip),
        RecordKind::Aaaa => Some(LookupKind::Ip),
        RecordKind::Txt => Some(LookupKind::Txt),
        RecordKind::Mx => Some(LookupKind::Mx),
        RecordKind::Other => None,
    }
}

/// The name under which `hickory_proto` displays the record type with
/// this number.
pub uninterp spec fn record_type_text(code: u16) -> Seq<char>;

/// Calls `RecordType::from(u16)` of `hickory_proto`, tells the variants
/// `A`, `AAAA`, `TXT` and `MX` from all others, and takes the type's
/// displayed name. The contract claims that the numbers 1, 28, 16 and 15,
/// and no others, give those four variants, and names the text.
#[verifier::external_body]
pub(crate) fn describe_record_type(code: u16) -> (r: (RecordKind, String))
    ensures
        r.0 == kind_of(code),
        r.1@ == record_type_text(code),
{
    let record_type = RecordType::from(code);
    let kind = match record_type {
        RecordType::A => RecordKind::A,
        RecordType::AAAA => RecordKind::Aaaa,
        RecordType::TXT => RecordKind::Txt,
        RecordType::MX => RecordKind::Mx,
        _ => RecordKind::Other,
    };
    (kind, record_type.to_string())
}

/// The lookup that answers a kind of query.
pub fn lookup_kind(kind: RecordKind) -> (r: Option<LookupKind>)
    ensures
        r == lookup_for(kind),
{
    match kind {
        RecordKind::A => Some(LookupKind::Ip),
        RecordKind::Aaaa => Some(LookupKind::Ip),
        RecordKind::Txt => Some(LookupKind::Txt),
        RecordKind::Mx => Some(LookupKind::Mx),
        RecordKind::Other => None,
    }
}

} // verus!
