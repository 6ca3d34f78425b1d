//! The ICMP header: its fields, its eight-byte wire form, its checksum, and
//! the decoding of the `type` byte and of the `code` byte that depends on it.

use vstd::prelude::*;

use crate::inet::{
    inet_cksum, internet_checksum, lemma_fold_complement, lemma_single_bit_flip_detected,
    word_sum, InetCkSum,
};
use crate::text::{decimal, decimal_text, other_label, wrapped_number_text};

verus! {

/// The raw `type` byte of a header.
#[derive(Clone, Copy, PartialEq, Eq, Hash, Debug, Structural)]
pub struct ICMPType(pub u8);

/// The raw `code` byte of a header; its meaning depends on the type.
#[derive(Clone, Copy, PartialEq, Eq, Hash, Debug, Structural)]
pub struct ICMPCode(pub u8);

/// The message kinds that a `type` byte names; any other byte is kept in `Oth`.
#[derive(Clone, Copy, PartialEq, Eq, Hash, Debug, Structural)]
#[non_exhaustive]
pub enum ICMPTypeKind {
    EchoReply,
    DestinationUnreachable,
    RedirectMessage,
    EchoRequest,
    /// Router advertisement (ICMP router discovery).
    RouterAdvertisement,
    RouterSolicitation,
    TimeExceeded,
    /// Bad IP header.
    BadParam,
    Timestamp,
    TimestampReply,
    ExtendedEchoRequest,
    ExtendedEchoReply,
    Oth(u8),
}

impl ICMPTypeKind {
    /// The kind that type byte `b` denotes.
    pub open spec fn spec_decode(b: u8) -> Self {
        match b {
            0u8 => ICMPTypeKind::EchoReply,
            3u8 => ICMPTypeKind::DestinationUnreachable,
            5u8 => ICMPTypeKind::RedirectMessage,
            8u8 => ICMPTypeKind::EchoRequest,
            9u8 => ICMPTypeKind::RouterAdvertisement,
            10u8 => ICMPTypeKind::RouterSolicitation,
            11u8 => ICMPTypeKind::TimeExceeded,
            12u8 => ICMPTypeKind::BadParam,
            13u8 => ICMPTypeKind::Timestamp,
            14u8 => ICMPTypeKind::TimestampReply,
            42u8 => ICMPTypeKind::ExtendedEchoRequest,
            43u8 => ICMPTypeKind::ExtendedEchoReply,
            _ => ICMPTypeKind::Oth(b),
        }
    }

    /// The type byte that encodes this kind.
    pub open spec fn spec_bits(self) -> u8 {
        match self {
            ICMPTypeKind::EchoReply => 0u8,
            ICMPTypeKind::DestinationUnreachable => 3u8,
            ICMPTypeKind::RedirectMessage => 5u8,
            ICMPTypeKind::EchoRequest => 8u8,
            ICMPTypeKind::RouterAdvertisement => 9u8,
            ICMPTypeKind::RouterSolicitation => 10u8,
            ICMPTypeKind::TimeExceeded => 11u8,
            ICMPTypeKind::BadParam => 12u8,
            ICMPTypeKind::Timestamp => 13u8,
            ICMPTypeKind::TimestampReply => 14u8,
            ICMPTypeKind::ExtendedEchoRequest => 42u8,
            ICMPTypeKind::ExtendedEchoReply => 43u8,
            ICMPTypeKind::Oth(b) => b,
        }
    }

    /// The name of this kind; a fallback reads `Oth(<byte>)`.
    pub open spec fn spec_label(self) -> Seq<char> {
        match self {
            ICMPTypeKind::EchoReply => "EchoReply"@,
            ICMPTypeKind::DestinationUnreachable => "DestinationUnreachable"@,
            ICMPTypeKind::RedirectMessage => "RedirectMessage"@,
            ICMPTypeKind::EchoRequest => "EchoRequest"@,
            ICMPTypeKind::RouterAdvertisement => "RouterAdvertisement"@,
            ICMPTypeKind::RouterSolicitation => "RouterSolicitation"@,
            ICMPTypeKind::TimeExceeded => "TimeExceeded"@,
            ICMPTypeKind::BadParam => "BadParam"@,
            ICMPTypeKind::Timestamp => "Timestamp"@,
            ICMPTypeKind::TimestampReply => "TimestampReply"@,
            ICMPTypeKind::ExtendedEchoRequest => "ExtendedEchoRequest"@,
            ICMPTypeKind::ExtendedEchoReply => "ExtendedEchoReply"@,
            ICMPTypeKind::Oth(b) => wrapped_number_text("Oth("@, b),
        }
    }

    /// Decodes a type byte.
    pub fn decode(b: u8) -> (r: Self)
        ensures
            r == Self::spec_decode(b),
    {
        match b {
            0 => ICMPTypeKind::EchoReply,
            3 => ICMPTypeKind::DestinationUnreachable,
            5 => ICMPTypeKind::RedirectMessage,
            8 => ICMPTypeKind::EchoRequest,
            9 => ICMPTypeKind::RouterAdvertisement,
            10 => ICMPTypeKind::RouterSolicitation,
            11 => ICMPTypeKind::TimeExceeded,
            12 => ICMPTypeKind::BadParam,
            13 => ICMPTypeKind::Timestamp,
            14 => ICMPTypeKind::TimestampReply,
            42 => ICMPTypeKind::ExtendedEchoRequest,
            43 => ICMPTypeKind::ExtendedEchoReply,
            _ => ICMPTypeKind::Oth(b),
        }
    }

    /// The type byte that encodes this kind.
    pub fn to_bits(&self) -> (r: u8)
        ensures
            r == self.spec_bits(),
    {
        match *self {
            ICMPTypeKind::EchoReply => 0,
            ICMPTypeKind::DestinationUnreachable => 3,
            ICMPTypeKind::RedirectMessage => 5,
            ICMPTypeKind::EchoRequest => 8,
            ICMPTypeKind::RouterAdvertisement => 9,
            ICMPTypeKind::RouterSolicitation => 10,
            ICMPTypeKind::TimeExceeded => 11,
            ICMPTypeKind::BadParam => 12,
            ICMPTypeKind::Timestamp => 13,
            ICMPTypeKind::TimestampReply => 14,
            ICMPTypeKind::ExtendedEchoRequest => 42,
            ICMPTypeKind::ExtendedEchoReply => 43,
            ICMPTypeKind::Oth(b) => b,
        }
    }

    /// The name of this kind.
    pub fn label(&self) -> (r: String)
        ensures
            r@ == self.spec_label(),
    {
        match *self {
            ICMPTypeKind::EchoReply => String::from_str("EchoReply"),
            ICMPTypeKind::DestinationUnreachable => String::from_str("DestinationUnreachable"),
            ICMPTypeKind::RedirectMessage => String::from_str("RedirectMessage"),
            ICMPTypeKind::EchoRequest => String::from_str("EchoRequest"),
            ICMPTypeKind::RouterAdvertisement => String::from_str("RouterAdvertisement"),
            ICMPTypeKind::RouterSolicitation => String::from_str("RouterSolicitation"),
            ICMPTypeKind::TimeExceeded => String::from_str("TimeExceeded"),
            ICMPTypeKind::BadParam => String::from_str("BadParam"),
            ICMPTypeKind::Timestamp => String::from_str("Timestamp"),
            ICMPTypeKind::TimestampReply => String::from_str("TimestampReply"),
            ICMPTypeKind::ExtendedEchoRequest => String::from_str("ExtendedEchoRequest"),
            ICMPTypeKind::ExtendedEchoReply => String::from_str("ExtendedEchoReply"),
            ICMPTypeKind::Oth(b) => other_label(b),
        }
    }
}

impl From<ICMPType> for ICMPTypeKind {
    fn from(value: ICMPType) -> Self {
        Self::decode(value.0)
    }
}

impl vstd::std_specs::convert::FromSpecImpl<ICMPType> for ICMPTypeKind {
    open spec fn obeys_from_spec() -> bool {
        true
    }

    open spec fn from_spec(v: ICMPType) -> Self {
        Self::spec_decode(v.0)
    }
}

/// Codes of a destination-unreachable message. Values without an assigned meaning are kept in `Oth`.
#[derive(Clone, Copy, PartialEq, Eq, Hash, Debug, Structural)]
pub enum UnreachCode {
    DstNetworkUnreachable,
    DstHostUnreachable,
    DstProtocolUnreachable,
    DstPortUnreachable,
    FragRequiredDFFlagset,
    SrcRouteFailed,
    DstNetworkUnknown,
    DstHostUnknown,
    SrcHostIsolated,
    NetworkAdmiProhibited,
    HostAdmiProhibited,
    NetworkUnreachableforToS,
    HostUnreachableforToS,
    CommunicationAdmiProhibited,
    HostPrecedenceViolation,
    PrecedenceCutOff,
    Oth(u8),
}

impl UnreachCode {
    /// The code that byte `c` denotes: a named code for `0..=15`, `Oth(c)` otherwise.
    pub open spec fn spec_decode(c: u8) -> Self {
        match c {
            0u8 => UnreachCode::DstNetworkUnreachable,
            1u8 => UnreachCode::DstHostUnreachable,
            2u8 => UnreachCode::DstProtocolUnreachable,
            3u8 => UnreachCode::DstPortUnreachable,
            4u8 => UnreachCode::FragRequiredDFFlagset,
            5u8 => UnreachCode::SrcRouteFailed,
            6u8 => UnreachCode::DstNetworkUnknown,
            7u8 => UnreachCode::DstHostUnknown,
            8u8 => UnreachCode::SrcHostIsolated,
            9u8 => UnreachCode::NetworkAdmiProhibited,
            10u8 => UnreachCode::HostAdmiProhibited,
            11u8 => UnreachCode::NetworkUnreachableforToS,
            12u8 => UnreachCode::HostUnreachableforToS,
            13u8 => UnreachCode::CommunicationAdmiProhibited,
            14u8 => UnreachCode::HostPrecedenceViolation,
            15u8 => UnreachCode::PrecedenceCutOff,
            _ => UnreachCode::Oth(c),
        }
    }

    /// The byte that encodes this code.
    pub open spec fn spec_bits(self) -> u8 {
        match self {
            UnreachCode::DstNetworkUnreachable => 0u8,
            UnreachCode::DstHostUnreachable => 1u8,
            UnreachCode::DstProtocolUnreachable => 2u8,
            UnreachCode::DstPortUnreachable => 3u8,
            UnreachCode::FragRequiredDFFlagset => 4u8,
            UnreachCode::SrcRouteFailed => 5u8,
            UnreachCode::DstNetworkUnknown => 6u8,
            UnreachCode::DstHostUnknown => 7u8,
            UnreachCode::SrcHostIsolated => 8u8,
            UnreachCode::NetworkAdmiProhibited => 9u8,
            UnreachCode::HostAdmiProhibited => 10u8,
            UnreachCode::NetworkUnreachableforToS => 11u8,
            UnreachCode::HostUnreachableforToS => 12u8,
            UnreachCode::CommunicationAdmiProhibited => 13u8,
            UnreachCode::HostPrecedenceViolation => 14u8,
            UnreachCode::PrecedenceCutOff => 15u8,
            UnreachCode::Oth(v) => v,
        }
    }

    /// The name of this code; a fallback reads `Oth(<byte>)`.
    pub open spec fn spec_label(self) -> Seq<char> {
        match self {
            UnreachCode::DstNetworkUnreachable => "DstNetworkUnreachable"@,
            UnreachCode::DstHostUnreachable => "DstHostUnreachable"@,
            UnreachCode::DstProtocolUnreachable => "DstProtocolUnreachable"@,
            UnreachCode::DstPortUnreachable => "DstPortUnreachable"@,
            UnreachCode::FragRequiredDFFlagset => "FragRequiredDFFlagset"@,
            UnreachCode::SrcRouteFailed => "SrcRouteFailed"@,
            UnreachCode::DstNetworkUnknown => "DstNetworkUnknown"@,
            UnreachCode::DstHostUnknown => "DstHostUnknown"@,
            UnreachCode::SrcHostIsolated => "SrcHostIsolated"@,
            UnreachCode::NetworkAdmiProhibited => "NetworkAdmiProhibited"@,
            UnreachCode::HostAdmiProhibited => "HostAdmiProhibited"@,
            UnreachCode::NetworkUnreachableforToS => "NetworkUnreachableforToS"@,
            UnreachCode::HostUnreachableforToS => "HostUnreachableforToS"@,
            UnreachCode::CommunicationAdmiProhibited => "CommunicationAdmiProhibited"@,
            UnreachCode::HostPrecedenceViolation => "HostPrecedenceViolation"@,
            UnreachCode::PrecedenceCutOff => "PrecedenceCutOff"@,
            UnreachCode::Oth(v) => wrapped_number_text("Oth("@, v),
        }
    }

    /// Decodes a code byte.
    pub fn decode(c: u8) -> (r: Self)
        ensures
            r == Self::spec_decode(c),
    {
        match c {
            0 => UnreachCode::DstNetworkUnreachable,
            1 => UnreachCode::DstHostUnreachable,
            2 => UnreachCode::DstProtocolUnreachable,
            3 => UnreachCode::DstPortUnreachable,
            4 => UnreachCode::FragRequiredDFFlagset,
            5 => UnreachCode::SrcRouteFailed,
            6 => UnreachCode::DstNetworkUnknown,
            7 => UnreachCode::DstHostUnknown,
            8 => UnreachCode::SrcHostIsolated,
            9 => UnreachCode::NetworkAdmiProhibited,
            10 => UnreachCode::HostAdmiProhibited,
            11 => UnreachCode::NetworkUnreachableforToS,
            12 => UnreachCode::HostUnreachableforToS,
            13 => UnreachCode::CommunicationAdmiProhibited,
            14 => UnreachCode::HostPrecedenceViolation,
            15 => UnreachCode::PrecedenceCutOff,
            _ => UnreachCode::Oth(c),
        }
    }

    /// The byte that encodes this code.
    pub fn to_bits(&self) -> (r: u8)
        ensures
            r == self.spec_bits(),
    {
        match *self {
            UnreachCode::DstNetworkUnreachable => 0,
            UnreachCode::DstHostUnreachable => 1,
            UnreachCode::DstProtocolUnreachable => 2,
            UnreachCode::DstPortUnreachable => 3,
            UnreachCode::FragRequiredDFFlagset => 4,
            UnreachCode::SrcRouteFailed => 5,
            UnreachCode::DstNetworkUnknown => 6,
            UnreachCode::DstHostUnknown => 7,
            UnreachCode::SrcHostIsolated => 8,
            UnreachCode::NetworkAdmiProhibited => 9,
            UnreachCode::HostAdmiProhibited => 10,
            UnreachCode::NetworkUnreachableforToS => 11,
            UnreachCode::HostUnreachableforToS => 12,
            UnreachCode::CommunicationAdmiProhibited => 13,
            UnreachCode::HostPrecedenceViolation => 14,
            UnreachCode::PrecedenceCutOff => 15,
            UnreachCode::Oth(v) => v,
        }
    }

    /// The name of this code.
    pub fn label(&self) -> (r: String)
        ensures
            r@ == self.spec_label(),
    {
        match *self {
            UnreachCode::DstNetworkUnreachable => String::from_str("DstNetworkUnreachable"),
            UnreachCode::DstHostUnreachable => String::from_str("DstHostUnreachable"),
            UnreachCode::DstProtocolUnreachable => String::from_str("DstProtocolUnreachable"),
            UnreachCode::DstPortUnreachable => String::from_str("DstPortUnreachable"),
            UnreachCode::FragRequiredDFFlagset => String::from_str("FragRequiredDFFlagset"),
            UnreachCode::SrcRouteFailed => String::from_str("SrcRouteFailed"),
            UnreachCode::DstNetworkUnknown => String::from_str("DstNetworkUnknown"),
            UnreachCode::DstHostUnknown => String::from_str("DstHostUnknown"),
            UnreachCode::SrcHostIsolated => String::from_str("SrcHostIsolated"),
            UnreachCode::NetworkAdmiProhibited => String::from_str("NetworkAdmiProhibited"),
            UnreachCode::HostAdmiProhibited => String::from_str("HostAdmiProhibited"),
            UnreachCode::NetworkUnreachableforToS => String::from_str("NetworkUnreachableforToS"),
            UnreachCode::HostUnreachableforToS => String::from_str("HostUnreachableforToS"),
            UnreachCode::CommunicationAdmiProhibited => String::from_str("CommunicationAdmiProhibited"),
            UnreachCode::HostPrecedenceViolation => String::from_str("HostPrecedenceViolation"),
            UnreachCode::PrecedenceCutOff => String::from_str("PrecedenceCutOff"),
            UnreachCode::Oth(v) => other_label(v),
        }
    }
}

impl From<ICMPCode> for UnreachCode {
    fn from(value: ICMPCode) -> Self {
        Self::decode(value.0)
    }
}

impl vstd::std_specs::convert::FromSpecImpl<ICMPCode> for UnreachCode {
    open spec fn obeys_from_spec() -> bool {
        true
    }

    open spec fn from_spec(v: ICMPCode) -> Self {
        Self::spec_decode(v.0)
    }
}

/// Codes of a redirect message. Values without an assigned meaning are kept in `Oth`.
#[derive(Clone, Copy, PartialEq, Eq, Hash, Debug, Structural)]
pub enum RedirectCode {
    ForNetwork,
    ForHost,
    ForToSAndNetwork,
    ForToSAndHost,
    Oth(u8),
}

impl RedirectCode {
    /// The code that byte `c` denotes: a named code for `0..=3`, `Oth(c)` otherwise.
    pub open spec fn spec_decode(c: u8) -> Self {
        match c {
            0u8 => RedirectCode::ForNetwork,
            1u8 => RedirectCode::ForHost,
            2u8 => RedirectCode::ForToSAndNetwork,
            3u8 => RedirectCode::ForToSAndHost,
            _ => RedirectCode::Oth(c),
        }
    }

    /// The byte that encodes this code.
    pub open spec fn spec_bits(self) -> u8 {
        match self {
            RedirectCode::ForNetwork => 0u8,
            RedirectCode::ForHost => 1u8,
            RedirectCode::ForToSAndNetwork => 2u8,
            RedirectCode::ForToSAndHost => 3u8,
            RedirectCode::Oth(v) => v,
        }
    }

    /// The name of this code; a fallback reads `Oth(<byte>)`.
    pub open spec fn spec_label(self) -> Seq<char> {
        match self {
            RedirectCode::ForNetwork => "ForNetwork"@,
            RedirectCode::ForHost => "ForHost"@,
            RedirectCode::ForToSAndNetwork => "ForToSAndNetwork"@,
            RedirectCode::ForToSAndHost => "ForToSAndHost"@,
            RedirectCode::Oth(v) => wrapped_number_text("Oth("@, v),
        }
    }

    /// Decodes a code byte.
    pub fn decode(c: u8) -> (r: Self)
        ensures
            r == Self::spec_decode(c),
    {
        match c {
            0 => RedirectCode::ForNetwork,
            1 => RedirectCode::ForHost,
            2 => RedirectCode::ForToSAndNetwork,
            3 => RedirectCode::ForToSAndHost,
            _ => RedirectCode::Oth(c),
        }
    }

    /// The byte that encodes this code.
    pub fn to_bits(&self) -> (r: u8)
        ensures
            r == self.spec_bits(),
    {
        match *self {
            RedirectCode::ForNetwork => 0,
            RedirectCode::ForHost => 1,
            RedirectCode::ForToSAndNetwork => 2,
            RedirectCode::ForToSAndHost => 3,
            RedirectCode::Oth(v) => v,
        }
    }

    /// The name of this code.
    pub fn label(&self) -> (r: String)
        ensures
            r@ == self.spec_label(),
    {
        match *self {
            RedirectCode::ForNetwork => String::from_str("ForNetwork"),
            RedirectCode::ForHost => String::from_str("ForHost"),
            RedirectCode::ForToSAndNetwork => String::from_str("ForToSAndNetwork"),
            RedirectCode::ForToSAndHost => String::from_str("ForToSAndHost"),
            RedirectCode::Oth(v) => other_label(v),
        }
    }
}

impl From<ICMPCode> for RedirectCode {
    fn from(value: ICMPCode) -> Self {
        Self::decode(value.0)
    }
}

impl vstd::std_specs::convert::FromSpecImpl<ICMPCode> for RedirectCode {
    open spec fn obeys_from_spec() -> bool {
        true
    }

    open spec fn from_spec(v: ICMPCode) -> Self {
        Self::spec_decode(v.0)
    }
}

/// Codes of a time-exceeded message. Values without an assigned meaning are kept in `Oth`.
#[derive(Clone, Copy, PartialEq, Eq, Hash, Debug, Structural)]
pub enum TimeExceededCode {
    TTLExpired,
    FragmentReassemblyTimeExceeded,
    Oth(u8),
}

impl TimeExceededCode {
    /// The code that byte `c` denotes: a named code for `0..=1`, `Oth(c)` otherwise.
    pub open spec fn spec_decode(c: u8) -> Self {
        match c {
            0u8 => TimeExceededCode::TTLExpired,
            1u8 => TimeExceededCode::FragmentReassemblyTimeExceeded,
            _ => TimeExceededCode::Oth(c),
        }
    }

    /// The byte that encodes this code.
    pub open spec fn spec_bits(self) -> u8 {
        match self {
            TimeExceededCode::TTLExpired => 0u8,
            TimeExceededCode::FragmentReassemblyTimeExceeded => 1u8,
            TimeExceededCode::Oth(v) => v,
        }
    }

    /// The name of this code; a fallback reads `Oth(<byte>)`.
    pub open spec fn spec_label(self) -> Seq<char> {
        match self {
            TimeExceededCode::TTLExpired => "TTLExpired"@,
            TimeExceededCode::FragmentReassemblyTimeExceeded => "FragmentReassemblyTimeExceeded"@,
            TimeExceededCode::Oth(v) => wrapped_number_text("Oth("@, v),
        }
    }

    /// Decodes a code byte.
    pub fn decode(c: u8) -> (r: Self)
        ensures
            r == Self::spec_decode(c),
    {
        match c {
            0 => TimeExceededCode::TTLExpired,
            1 => TimeExceededCode::FragmentReassemblyTimeExceeded,
            _ => TimeExceededCode::Oth(c),
        }
    }

    /// The byte that encodes this code.
    pub fn to_bits(&self) -> (r: u8)
        ensures
            r == self.spec_bits(),
    {
        match *self {
            TimeExceededCode::TTLExpired => 0,
            TimeExceededCode::FragmentReassemblyTimeExceeded => 1,
            TimeExceededCode::Oth(v) => v,
        }
    }

    /// The name of this code.
    pub fn label(&self) -> (r: String)
        ensures
            r@ == self.spec_label(),
    {
        match *self {
            TimeExceededCode::TTLExpired => String::from_str("TTLExpired"),
            TimeExceededCode::FragmentReassemblyTimeExceeded => String::from_str("FragmentReassemblyTimeExceeded"),
            TimeExceededCode::Oth(v) => other_label(v),
        }
    }
}

impl From<ICMPCode> for TimeExceededCode {
    fn from(value: ICMPCode) -> Self {
        Self::decode(value.0)
    }
}

impl vstd::std_specs::convert::FromSpecImpl<ICMPCode> for TimeExceededCode {
    open spec fn obeys_from_spec() -> bool {
        true
    }

    open spec fn from_spec(v: ICMPCode) -> Self {
        Self::spec_decode(v.0)
    }
}

/// Codes of a bad-parameter (bad IP header) message. Values without an assigned meaning are kept in `Oth`.
#[derive(Clone, Copy, PartialEq, Eq, Hash, Debug, Structural)]
pub enum BadIPHeaderCode {
    PtrIndicatesError,
    MissingRequiredOption,
    BadLen,
    Oth(u8),
}

impl BadIPHeaderCode {
    /// The code that byte `c` denotes: a named code for `0..=2`, `Oth(c)` otherwise.
    pub open spec fn spec_decode(c: u8) -> Self {
        match c {
            0u8 => BadIPHeaderCode::PtrIndicatesError,
            1u8 => BadIPHeaderCode::MissingRequiredOption,
            2u8 => BadIPHeaderCode::BadLen,
            _ => BadIPHeaderCode::Oth(c),
        }
    }

    /// The byte that encodes this code.
    pub open spec fn spec_bits(self) -> u8 {
        match self {
            BadIPHeaderCode::PtrIndicatesError => 0u8,
            BadIPHeaderCode::MissingRequiredOption => 1u8,
            BadIPHeaderCode::BadLen => 2u8,
            BadIPHeaderCode::Oth(v) => v,
        }
    }

    /// The name of this code; a fallback reads `Oth(<byte>)`.
    pub open spec fn spec_label(self) -> Seq<char> {
        match self {
            BadIPHeaderCode::PtrIndicatesError => "PtrIndicatesError"@,
            BadIPHeaderCode::MissingRequiredOption => "MissingRequiredOption"@,
            BadIPHeaderCode::BadLen => "BadLen"@,
            BadIPHeaderCode::Oth(v) => wrapped_number_text("Oth("@, v),
        }
    }

    /// Decodes a code byte.
    pub fn decode(c: u8) -> (r: Self)
        ensures
            r == Self::spec_decode(c),
    {
        match c {
            0 => BadIPHeaderCode::PtrIndicatesError,
            1 => BadIPHeaderCode::MissingRequiredOption,
            2 => BadIPHeaderCode::BadLen,
            _ => BadIPHeaderCode::Oth(c),
        }
    }

    /// The byte that encodes this code.
    pub fn to_bits(&self) -> (r: u8)
        ensures
            r == self.spec_bits(),
    {
        match *self {
            BadIPHeaderCode::PtrIndicatesError => 0,
            BadIPHeaderCode::MissingRequiredOption => 1,
            BadIPHeaderCode::BadLen => 2,
            BadIPHeaderCode::Oth(v) => v,
        }
    }

    /// The name of this code.
    pub fn label(&self) -> (r: String)
        ensures
            r@ == self.spec_label(),
    {
        match *self {
            BadIPHeaderCode::PtrIndicatesError => String::from_str("PtrIndicatesError"),
            BadIPHeaderCode::MissingRequiredOption => String::from_str("MissingRequiredOption"),
            BadIPHeaderCode::BadLen => String::from_str("BadLen"),
            BadIPHeaderCode::Oth(v) => other_label(v),
        }
    }
}

impl From<ICMPCode> for BadIPHeaderCode {
    fn from(value: ICMPCode) -> Self {
        Self::decode(value.0)
    }
}

impl vstd::std_specs::convert::FromSpecImpl<ICMPCode> for BadIPHeaderCode {
    open spec fn obeys_from_spec() -> bool {
        true
    }

    open spec fn from_spec(v: ICMPCode) -> Self {
        Self::spec_decode(v.0)
    }
}

/// Codes of an extended-echo reply. Values without an assigned meaning are kept in `Oth`.
#[derive(Clone, Copy, PartialEq, Eq, Hash, Debug, Structural)]
pub enum ExtendedErrorCode {
    NoError,
    MalformedQuery,
    NoSuchInterface,
    NoSuchTableEntry,
    MultipleInterfacesSatisfyQuery,
    Oth(u8),
}

impl ExtendedErrorCode {
    /// The code that byte `c` denotes: a named code for `0..=4`, `Oth(c)` otherwise.
    pub open spec fn spec_decode(c: u8) -> Self {
        match c {
            0u8 => ExtendedErrorCode::NoError,
            1u8 => ExtendedErrorCode::MalformedQuery,
            2u8 => ExtendedErrorCode::NoSuchInterface,
            3u8 => ExtendedErrorCode::NoSuchTableEntry,
            4u8 => ExtendedErrorCode::MultipleInterfacesSatisfyQuery,
            _ => ExtendedErrorCode::Oth(c),
        }
    }

    /// The byte that encodes this code.
    pub open spec fn spec_bits(self) -> u8 {
        match self {
            ExtendedErrorCode::NoError => 0u8,
            ExtendedErrorCode::MalformedQuery => 1u8,
            ExtendedErrorCode::NoSuchInterface => 2u8,
            ExtendedErrorCode::NoSuchTableEntry => 3u8,
            ExtendedErrorCode::MultipleInterfacesSatisfyQuery => 4u8,
            ExtendedErrorCode::Oth(v) => v,
        }
    }

    /// The name of this code; a fallback reads `Oth(<byte>)`.
    pub open spec fn spec_label(self) -> Seq<char> {
        match self {
            ExtendedErrorCode::NoError => "NoError"@,
            ExtendedErrorCode::MalformedQuery => "MalformedQuery"@,
            ExtendedErrorCode::NoSuchInterface => "NoSuchInterface"@,
            ExtendedErrorCode::NoSuchTableEntry => "NoSuchTableEntry"@,
            ExtendedErrorCode::MultipleInterfacesSatisfyQuery => "MultipleInterfacesSatisfyQuery"@,
            ExtendedErrorCode::Oth(v) => wrapped_number_text("Oth("@, v),
        }
    }

    /// Decodes a code byte.
    pub fn decode(c: u8) -> (r: Self)
        ensures
            r == Self::spec_decode(c),
    {
        match c {
            0 => ExtendedErrorCode::NoError,
            1 => ExtendedErrorCode::MalformedQuery,
            2 => ExtendedErrorCode::NoSuchInterface,
            3 => ExtendedErrorCode::NoSuchTableEntry,
            4 => ExtendedErrorCode::MultipleInterfacesSatisfyQuery,
            _ => ExtendedErrorCode::Oth(c),
        }
    }

    /// The byte that encodes this code.
    pub fn to_bits(&self) -> (r: u8)
        ensures
            r == self.spec_bits(),
    {
        match *self {
            ExtendedErrorCode::NoError => 0,
            ExtendedErrorCode::MalformedQuery => 1,
            ExtendedErrorCode::NoSuchInterface => 2,
            ExtendedErrorCode::NoSuchTableEntry => 3,
            ExtendedErrorCode::MultipleInterfacesSatisfyQuery => 4,
            ExtendedErrorCode::Oth(v) => v,
        }
    }

    /// The name of this code.
    pub fn label(&self) -> (r: String)
        ensures
            r@ == self.spec_label(),
    {
        match *self {
            ExtendedErrorCode::NoError => String::from_str("NoError"),
            ExtendedErrorCode::MalformedQuery => String::from_str("MalformedQuery"),
            ExtendedErrorCode::NoSuchInterface => String::from_str("NoSuchInterface"),
            ExtendedErrorCode::NoSuchTableEntry => String::from_str("NoSuchTableEntry"),
            ExtendedErrorCode::MultipleInterfacesSatisfyQuery => String::from_str("MultipleInterfacesSatisfyQuery"),
            ExtendedErrorCode::Oth(v) => other_label(v),
        }
    }
}

impl From<ICMPCode> for ExtendedErrorCode {
    fn from(value: ICMPCode) -> Self {
        Self::decode(value.0)
    }
}

impl vstd::std_specs::convert::FromSpecImpl<ICMPCode> for ExtendedErrorCode {
    open spec fn obeys_from_spec() -> bool {
        true
    }

    open spec fn from_spec(v: ICMPCode) -> Self {
        Self::spec_decode(v.0)
    }
}

/// The meaning of a code byte once the message kind has selected how to read
/// it: one of the five code tables, or the plain number for kinds whose code
/// has no named values.
#[derive(Clone, Copy, PartialEq, Eq, Hash, Debug, Structural)]
pub enum ICMPCodeKind {
    Unreach(UnreachCode),
    Redirect(RedirectCode),
    TimeExceeded(TimeExceededCode),
    BadParam(BadIPHeaderCode),
    ExtendedError(ExtendedErrorCode),
    Plain(u8),
}

impl ICMPCodeKind {
    /// The text of this code: the name from its table, or the plain number in decimal.
    pub open spec fn spec_label(self) -> Seq<char> {
        match self {
            ICMPCodeKind::Unreach(c) => c.spec_label(),
            ICMPCodeKind::Redirect(c) => c.spec_label(),
            ICMPCodeKind::TimeExceeded(c) => c.spec_label(),
            ICMPCodeKind::BadParam(c) => c.spec_label(),
            ICMPCodeKind::ExtendedError(c) => c.spec_label(),
            ICMPCodeKind::Plain(v) => decimal_text(v as nat),
        }
    }

    /// The text of this code.
    pub fn label(&self) -> (r: String)
        ensures
            r@ == self.spec_label(),
    {
        match *self {
            ICMPCodeKind::Unreach(c) => c.label(),
            ICMPCodeKind::Redirect(c) => c.label(),
            ICMPCodeKind::TimeExceeded(c) => c.label(),
            ICMPCodeKind::BadParam(c) => c.label(),
            ICMPCodeKind::ExtendedError(c) => c.label(),
            ICMPCodeKind::Plain(v) => decimal(v),
        }
    }
}

/// How code byte `code` reads under message kind `ty`.
pub open spec fn spec_classify_code(ty: ICMPTypeKind, code: u8) -> ICMPCodeKind {
    match ty {
        ICMPTypeKind::DestinationUnreachable => ICMPCodeKind::Unreach(UnreachCode::spec_decode(code)),
        ICMPTypeKind::RedirectMessage => ICMPCodeKind::Redirect(RedirectCode::spec_decode(code)),
        ICMPTypeKind::TimeExceeded => ICMPCodeKind::TimeExceeded(TimeExceededCode::spec_decode(code)),
        ICMPTypeKind::BadParam => ICMPCodeKind::BadParam(BadIPHeaderCode::spec_decode(code)),
        ICMPTypeKind::ExtendedEchoReply => ICMPCodeKind::ExtendedError(
            ExtendedErrorCode::spec_decode(code),
        ),
        _ => ICMPCodeKind::Plain(code),
    }
}

/// Reads a code byte through the table that the message kind selects.
pub fn classify_code(ty: ICMPTypeKind, code: ICMPCode) -> (r: ICMPCodeKind)
    ensures
        r == spec_classify_code(ty, code.0),
{
    match ty {
        ICMPTypeKind::DestinationUnreachable => ICMPCodeKind::Unreach(UnreachCode::from(code)),
        ICMPTypeKind::RedirectMessage => ICMPCodeKind::Redirect(RedirectCode::from(code)),
        ICMPTypeKind::TimeExceeded => ICMPCodeKind::TimeExceeded(TimeExceededCode::from(code)),
        ICMPTypeKind::BadParam => ICMPCodeKind::BadParam(BadIPHeaderCode::from(code)),
        ICMPTypeKind::ExtendedEchoReply => ICMPCodeKind::ExtendedError(
            ExtendedErrorCode::from(code),
        ),
        _ => ICMPCodeKind::Plain(code.0),
    }
}

/// The texts for a `(type, code)` pair: the name of the message kind, and
/// the code read as that kind says.
pub open spec fn describe_text(ty: u8, code: u8) -> (Seq<char>, Seq<char>) {
    let kind = ICMPTypeKind::spec_decode(ty);
    (kind.spec_label(), spec_classify_code(kind, code).spec_label())
}

/// Describes a `(type, code)` pair; defined for every pair of bytes.
pub fn describe(ty: u8, code: u8) -> (r: (String, String))
    ensures
        r.0@ == describe_text(ty, code).0,
        r.1@ == describe_text(ty, code).1,
{
    let d = DebugICMPCode::new(ICMPType(ty), ICMPCode(code));
    (ICMPTypeKind::from(d.ty).label(), d.describe())
}

/// A header's type and code, kept together so that the code can be read as
/// the type says.
#[derive(Clone, Copy, PartialEq, Eq, Hash, Debug, Structural)]
pub struct DebugICMPCode {
    pub ty: ICMPType,
    pub code: ICMPCode,
}

impl DebugICMPCode {
    pub fn new(ty: ICMPType, code: ICMPCode) -> (r: Self)
        ensures
            r.ty == ty,
            r.code == code,
    {
        Self { ty, code }
    }

    /// The text of the code, read under the kind of the type.
    pub fn describe(&self) -> (r: String)
        ensures
            r@ == describe_text(self.ty.0, self.code.0).1,
    {
        classify_code(ICMPTypeKind::from(self.ty), self.code).label()
    }
}

/// Length of the header on the wire.
pub const HEADER_LEN: usize = 8;

/// The fixed eight-byte ICMP header.
#[derive(Clone, Copy, PartialEq, Eq, Hash, Debug, Structural)]
pub struct ICMP {
    pub ty: ICMPType,
    pub code: ICMPCode,
    pub cksum: InetCkSum,
    /// The type-specific rest of the header, written big-endian.
    pub un: u32,
}

/// The wire form of a header: type, code, checksum (big-endian), rest (big-endian).
pub open spec fn header_bytes(h: ICMP) -> Seq<u8> {
    seq![
        h.ty.0,
        h.code.0,
        (h.cksum.0 >> 8u16) as u8,
        h.cksum.0 as u8,
        (h.un >> 24u32) as u8,
        (h.un >> 16u32) as u8,
        (h.un >> 8u32) as u8,
        h.un as u8,
    ]
}

/// The header with its checksum field cleared.
pub open spec fn with_zero_cksum(h: ICMP) -> ICMP {
    ICMP { cksum: InetCkSum(0), ..h }
}

/// The header with its checksum field set to the checksum of its wire form
/// with that field cleared.
pub open spec fn recomputed(h: ICMP) -> ICMP {
    ICMP { cksum: InetCkSum(internet_checksum(header_bytes(with_zero_cksum(h)))), ..h }
}

impl ICMP {
    /// A copy of the header whose checksum field holds the checksum of the
    /// header with that field cleared.
    pub fn checksummed(self) -> (r: Self)
        ensures
            r == recomputed(self),
    {
        let mut h = self;
        h.cksum = InetCkSum::zero();
        let buf = h.as_buf();
        h.cksum = inet_cksum(buf.as_slice()).into();
        h
    }

    /// Whether the checksum of the wire form, checksum field included, is zero.
    pub fn verify_cksum(&self) -> (r: bool)
        ensures
            r == (internet_checksum(header_bytes(*self)) == 0),
    {
        let buf = self.as_buf();
        inet_cksum(buf.as_slice()) == 0
    }

    /// The wire form of the header.
    pub fn as_buf(&self) -> (r: [u8; 8])
        ensures
            r@ == header_bytes(*self),
    {
        let r = [
            self.ty.0,
            self.code.0,
            (self.cksum.0 >> 8u16) as u8,
            self.cksum.0 as u8,
            (self.un >> 24u32) as u8,
            (self.un >> 16u32) as u8,
            (self.un >> 8u32) as u8,
            self.un as u8,
        ];
        assert(r@ =~= header_bytes(*self));
        r
    }

    /// Reads a header from the first eight bytes of `buf`; `None` when the
    /// buffer is shorter than a header.
    pub fn from_buf(buf: &[u8]) -> (r: Option<ICMP>)
        ensures
            r is Some <==> buf@.len() >= HEADER_LEN,
            r matches Some(h) ==> header_bytes(h) == buf@.subrange(0, HEADER_LEN as int),
    {
        if buf.len() < HEADER_LEN {
            return None;
        }
        let (b2, b3) = (buf[2], buf[3]);
        let (b4, b5, b6, b7) = (buf[4], buf[5], buf[6], buf[7]);
        let ck: u16 = (b2 as u16) << 8u16 | b3 as u16;
        let un: u32 = (b4 as u32) << 24u32 | (b5 as u32) << 16u32 | (b6 as u32) << 8u32 | b7 as u32;
        assert((ck >> 8u16) as u8 == b2 && ck as u8 == b3) by (bit_vector)
            requires
                ck == (b2 as u16) << 8u16 | b3 as u16,
        ;
        assert((un >> 24u32) as u8 == b4 && (un >> 16u32) as u8 == b5 && (un >> 8u32) as u8 == b6
            && un as u8 == b7) by (bit_vector)
            requires
                un == (b4 as u32) << 24u32 | (b5 as u32) << 16u32 | (b6 as u32) << 8u32 | b7 as u32,
        ;
        let h = ICMP { ty: ICMPType(buf[0]), code: ICMPCode(buf[1]), cksum: InetCkSum(ck), un };
        assert(header_bytes(h) =~= buf@.subrange(0, HEADER_LEN as int));
        Some(h)
    }

    /// The type and code of the header, to be read together.
    pub fn debug_icmp_code(&self) -> (r: DebugICMPCode)
        ensures
            r.ty == self.ty,
            r.code == self.code,
    {
        DebugICMPCode::new(self.ty, self.code)
    }
}

/// Every type byte decodes to exactly one kind, which encodes back to that
/// byte; the fallback `Oth(b)` is taken by exactly the bytes that no named
/// kind uses.
pub proof fn lemma_type_kind_round_trip(b: u8)
    ensures
        ICMPTypeKind::spec_decode(b).spec_bits() == b,
        (ICMPTypeKind::spec_decode(b) is Oth) <==> !(b == 0 || b == 3 || b == 5 || b == 8 || b == 9
            || b == 10 || b == 11 || b == 12 || b == 13 || b == 14 || b == 42 || b == 43),
{
}

/// Under each kind with a code table, a code byte decodes to a named code
/// exactly within the table's assigned range and to `Oth(c)` outside it, and
/// the decoded code encodes back to `c`.
pub proof fn lemma_code_tables(c: u8)
    ensures
        spec_classify_code(ICMPTypeKind::DestinationUnreachable, c) == ICMPCodeKind::Unreach(
            UnreachCode::spec_decode(c),
        ),
        (UnreachCode::spec_decode(c) is Oth) <==> c > 15,
        UnreachCode::spec_decode(c).spec_bits() == c,
        spec_classify_code(ICMPTypeKind::RedirectMessage, c) == ICMPCodeKind::Redirect(
            RedirectCode::spec_decode(c),
        ),
        (RedirectCode::spec_decode(c) is Oth) <==> c > 3,
        RedirectCode::spec_decode(c).spec_bits() == c,
        spec_classify_code(ICMPTypeKind::TimeExceeded, c) == ICMPCodeKind::TimeExceeded(
            TimeExceededCode::spec_decode(c),
        ),
        (TimeExceededCode::spec_decode(c) is Oth) <==> c > 1,
        TimeExceededCode::spec_decode(c).spec_bits() == c,
        spec_classify_code(ICMPTypeKind::BadParam, c) == ICMPCodeKind::BadParam(
            BadIPHeaderCode::spec_decode(c),
        ),
        (BadIPHeaderCode::spec_decode(c) is Oth) <==> c > 2,
        BadIPHeaderCode::spec_decode(c).spec_bits() == c,
        spec_classify_code(ICMPTypeKind::ExtendedEchoReply, c) == ICMPCodeKind::ExtendedError(
            ExtendedErrorCode::spec_decode(c),
        ),
        (ExtendedErrorCode::spec_decode(c) is Oth) <==> c > 4,
        ExtendedErrorCode::spec_decode(c).spec_bits() == c,
{
}

/// The plain sum of a header's words: type and code, checksum, and the two
/// halves of the rest.
proof fn lemma_header_word_sum(h: ICMP)
    ensures
        word_sum(header_bytes(h)) == (h.ty.0 * 256 + h.code.0) + h.cksum.0 + (h.un >> 16u32) + (h.un
            & 0xFFFFu32),
{
    let bytes = header_bytes(h);
    let ck = h.cksum.0;
    let un = h.un;
    assert(((ck >> 8u16) as u8) as u16 * 256 + (ck as u8) as u16 == ck) by (bit_vector);
    assert(((un >> 24u32) as u8) as u32 * 256 + ((un >> 16u32) as u8) as u32 == un >> 16u32
        && ((un >> 8u32) as u8) as u32 * 256 + (un as u8) as u32 == un & 0xFFFFu32) by (bit_vector);
    reveal_with_fuel(crate::inet::words_sum, 5);
}

/// Recomputing the checksum of a header whose checksum was just recomputed
/// changes nothing.
pub proof fn lemma_checksummed_idempotent(h: ICMP)
    ensures
        recomputed(recomputed(h)) == recomputed(h),
{
    assert(with_zero_cksum(recomputed(h)) == with_zero_cksum(h));
}

/// A header whose checksum was just recomputed passes verification.
pub proof fn lemma_checksummed_verifies(h: ICMP)
    ensures
        internet_checksum(header_bytes(recomputed(h))) == 0,
{
    let z = with_zero_cksum(h);
    lemma_header_word_sum(z);
    lemma_header_word_sum(recomputed(h));
    lemma_fold_complement(word_sum(header_bytes(z)));
}

/// A header that passes verification fails it once any single bit of its
/// wire form is flipped: whatever header those bytes are read back as, its
/// checksum is nonzero.
pub proof fn lemma_header_bit_flip_detected(h: ICMP, i: int, k: u8, g: ICMP)
    requires
        internet_checksum(header_bytes(h)) == 0,
        0 <= i < HEADER_LEN,
        k < 8,
        header_bytes(g) == header_bytes(h).update(i, header_bytes(h)[i] ^ (1u8 << k)),
    ensures
        internet_checksum(header_bytes(g)) != 0,
{
    lemma_single_bit_flip_detected(header_bytes(h), i, k);
}

} // verus!
