//! Connection property snapshots.
//!
//! A connection reports its state as a heap-allocated property block: a
//! GUID, two owned strings (display name and device name), a status code,
//! a media-type code, and a characteristics bit set. The platform
//! allocates the block and both strings; the owner must free all three
//! exactly once. [`NetConProperties`] models such a snapshot with plain
//! values, carrying one release counter per owned allocation so that the
//! release discipline is stated and checked rather than assumed.
//! Unrecognized status and media-type codes are preserved and surfaced as
//! typed decode failures.

use crate::guid::Guid;
use vstd::prelude::*;

verus! {

/// The status of a network connection, decoded from the platform's
/// status code.
#[derive(Debug, Clone, Copy, PartialEq, Eq, Structural)]
pub enum NetConStatus {
    Disconnected,
    Connecting,
    Connected,
    Disconnecting,
    HardwareNotPresent,
    HardwareDisabled,
    HardwareMalfunction,
    MediaDisconnected,
    Authenticating,
    AuthenticationSucceeded,
    AuthenticationFailed,
    InvalidAddress,
    CredentialsRequired,
}

impl NetConStatus {
    /// The decoding of a raw status code: each of the thirteen documented
    /// codes maps to its variant; anything else is handed back unchanged
    /// as a decode failure.
    pub open spec fn spec_try_from(v: u32) -> Result<NetConStatus, u32> {
        if v == 0 {
            Ok(NetConStatus::Disconnected)
        } else if v == 1 {
            Ok(NetConStatus::Connecting)
        } else if v == 2 {
            Ok(NetConStatus::Connected)
        } else if v == 3 {
            Ok(NetConStatus::Disconnecting)
        } else if v == 4 {
            Ok(NetConStatus::HardwareNotPresent)
        } else if v == 5 {
            Ok(NetConStatus::HardwareDisabled)
        } else if v == 6 {
            Ok(NetConStatus::HardwareMalfunction)
        } else if v == 7 {
            Ok(NetConStatus::MediaDisconnected)
        } else if v == 8 {
            Ok(NetConStatus::Authenticating)
        } else if v == 9 {
            Ok(NetConStatus::AuthenticationSucceeded)
        } else if v == 10 {
            Ok(NetConStatus::AuthenticationFailed)
        } else if v == 11 {
            Ok(NetConStatus::InvalidAddress)
        } else if v == 12 {
            Ok(NetConStatus::CredentialsRequired)
        } else {
            Err(v)
        }
    }

    /// Decode a raw status code, preserving unrecognized values.
    pub fn try_from(v: u32) -> (r: Result<NetConStatus, u32>)
        ensures
            r == Self::spec_try_from(v),
    {
        if v == 0 {
            Ok(NetConStatus::Disconnected)
        } else if v == 1 {
            Ok(NetConStatus::Connecting)
        } else if v == 2 {
            Ok(NetConStatus::Connected)
        } else if v == 3 {
            Ok(NetConStatus::Disconnecting)
        } else if v == 4 {
            Ok(NetConStatus::HardwareNotPresent)
        } else if v == 5 {
            Ok(NetConStatus::HardwareDisabled)
        } else if v == 6 {
            Ok(NetConStatus::HardwareMalfunction)
        } else if v == 7 {
            Ok(NetConStatus::MediaDisconnected)
        } else if v == 8 {
            Ok(NetConStatus::Authenticating)
        } else if v == 9 {
            Ok(NetConStatus::AuthenticationSucceeded)
        } else if v == 10 {
            Ok(NetConStatus::AuthenticationFailed)
        } else if v == 11 {
            Ok(NetConStatus::InvalidAddress)
        } else if v == 12 {
            Ok(NetConStatus::CredentialsRequired)
        } else {
            Err(v)
        }
    }
}

/// The media type of a network connection, decoded from the platform's
/// media-type code.
#[derive(Debug, Clone, Copy, PartialEq, Eq, Structural)]
pub enum MediaType {
    NoMedia,
    Direct,
    Isdn,
    Lan,
    Phone,
    Tunnel,
    Pppoe,
    Bridge,
    SharedAccessHostLan,
    SharedAccessHostRas,
}

impl MediaType {
    /// The decoding of a raw media-type code: each of the ten documented
    /// codes maps to its variant; anything else is handed back unchanged
    /// as a decode failure.
    pub open spec fn spec_try_from(v: u32) -> Result<MediaType, u32> {
        if v == 0 {
            Ok(MediaType::NoMedia)
        } else if v == 1 {
            Ok(MediaType::Direct)
        } else if v == 2 {
            Ok(MediaType::Isdn)
        } else if v == 3 {
            Ok(MediaType::Lan)
        } else if v == 4 {
            Ok(MediaType::Phone)
        } else if v == 5 {
            Ok(MediaType::Tunnel)
        } else if v == 6 {
            Ok(MediaType::Pppoe)
        } else if v == 7 {
            Ok(MediaType::Bridge)
        } else if v == 8 {
            Ok(MediaType::SharedAccessHostLan)
        } else if v == 9 {
            Ok(MediaType::SharedAccessHostRas)
        } else {
            Err(v)
        }
    }

    /// Decode a raw media-type code, preserving unrecognized values.
    pub fn try_from(v: u32) -> (r: Result<MediaType, u32>)
        ensures
            r == Self::spec_try_from(v),
    {
        if v == 0 {
            Ok(MediaType::NoMedia)
        } else if v == 1 {
            Ok(MediaType::Direct)
        } else if v == 2 {
            Ok(MediaType::Isdn)
        } else if v == 3 {
            Ok(MediaType::Lan)
        } else if v == 4 {
            Ok(MediaType::Phone)
        } else if v == 5 {
            Ok(MediaType::Tunnel)
        } else if v == 6 {
            Ok(MediaType::Pppoe)
        } else if v == 7 {
            Ok(MediaType::Bridge)
        } else if v == 8 {
            Ok(MediaType::SharedAccessHostLan)
        } else if v == 9 {
            Ok(MediaType::SharedAccessHostRas)
        } else {
            Err(v)
        }
    }
}

/// No characteristic bits set.
pub const NCCF_NONE: u32 = 0;

/// The connection exists for all users of the machine.
pub const NCCF_ALL_USERS: u32 = 0x1;

/// The connection may be duplicated.
pub const NCCF_ALLOW_DUPLICATION: u32 = 0x2;

/// The connection may be removed.
pub const NCCF_ALLOW_REMOVAL: u32 = 0x4;

/// The connection may be renamed.
pub const NCCF_ALLOW_RENAME: u32 = 0x8;

/// An icon is shown for the connection.
pub const NCCF_SHOW_ICON: u32 = 0x10;

/// The connection accepts incoming traffic only.
pub const NCCF_INCOMING_ONLY: u32 = 0x20;

/// The connection carries outgoing traffic only.
pub const NCCF_OUTGOING_ONLY: u32 = 0x40;

/// The connection is branded.
pub const NCCF_BRANDED: u32 = 0x80;

/// The connection is shared.
pub const NCCF_SHARED: u32 = 0x100;

/// The connection participates in a bridge.
pub const NCCF_BRIDGED: u32 = 0x200;

/// The connection is firewalled.
pub const NCCF_FIREWALLED: u32 = 0x400;

/// The connection is the default connection.
pub const NCCF_DEFAULT: u32 = 0x800;

/// The connection can take part in a home network.
pub const NCCF_HOMENET_CAPABLE: u32 = 0x1000;

/// The connection's sharing is private.
pub const NCCF_SHARED_PRIVATE: u32 = 0x2000;

/// The connection is quarantined.
pub const NCCF_QUARANTINED: u32 = 0x4000;

/// Reserved bit.
pub const NCCF_RESERVED: u32 = 0x8000;

/// The four-bit mask holding the bluetooth sub-type.
pub const NCCF_BLUETOOTH_MASK: u32 = 0xf0000;

/// The four-bit mask holding the LAN sub-type.
pub const NCCF_LAN_MASK: u32 = 0xf00000;

/// Every characteristic bit the platform defines: the sixteen low flag
/// bits and the two four-bit sub-type masks.
pub const NCCF_ALL_BITS: u32 = 0xffffff;

/// The characteristics of a connection: a set of the `NCCF_` bits.
#[derive(Debug, Clone, Copy, PartialEq, Eq, Structural)]
pub struct NetConCharacteristicFlags {
    pub bits: u32,
}

impl NetConCharacteristicFlags {
    /// Interpret a raw characteristics word: accepted exactly when every
    /// set bit is a defined characteristic bit.
    pub open spec fn spec_from_bits(v: u32) -> Option<NetConCharacteristicFlags> {
        if v & !NCCF_ALL_BITS == 0 {
            Some(NetConCharacteristicFlags { bits: v })
        } else {
            None
        }
    }

    /// Interpret a raw characteristics word, rejecting undefined bits.
    pub fn from_bits(v: u32) -> (r: Option<NetConCharacteristicFlags>)
        ensures
            r == Self::spec_from_bits(v),
    {
        if v & !NCCF_ALL_BITS == 0 {
            Some(NetConCharacteristicFlags { bits: v })
        } else {
            None
        }
    }

    /// The raw bit set.
    pub fn bits(&self) -> (r: u32)
        ensures
            r == self.bits,
    {
        self.bits
    }

    /// Whether every bit of `flag` is set.
    pub fn contains(&self, flag: u32) -> (r: bool)
        ensures
            r == (self.bits & flag == flag),
    {
        self.bits & flag == flag
    }
}

/// An owned snapshot of one connection's properties.
///
/// The platform hands such a snapshot out as one structure and two string
/// allocations, all three owned by the receiver. The three release
/// counters model that ownership: a snapshot is live while nothing has
/// been released, and `release` frees each allocation exactly once. The
/// accessors demand a live snapshot, so released data cannot be read.
#[derive(Debug, PartialEq, Eq)]
pub struct NetConProperties {
    /// The connection's 128-bit identifier.
    pub guid: Guid,
    /// The connection's display name.
    pub name: String,
    /// The device's display name.
    pub device_name: String,
    /// The raw status code.
    pub status: u32,
    /// The raw media-type code.
    pub media_type: u32,
    /// The raw characteristics word.
    pub characteristics: u32,
    /// How often the name string has been released.
    pub name_releases: u32,
    /// How often the device-name string has been released.
    pub device_name_releases: u32,
    /// How often the owning structure has been released.
    pub struct_releases: u32,
}

impl NetConProperties {
    /// A snapshot is live while none of its allocations has been
    /// released.
    pub open spec fn live(&self) -> bool {
        self.name_releases == 0 && self.device_name_releases == 0 && self.struct_releases == 0
    }

    /// A snapshot is spent when each of its allocations has been
    /// released exactly once.
    pub open spec fn released_exactly_once(&self) -> bool {
        self.name_releases == 1 && self.device_name_releases == 1 && self.struct_releases == 1
    }

    /// A fresh, live snapshot holding the given property values.
    pub fn new(
        guid: Guid,
        name: String,
        device_name: String,
        status: u32,
        media_type: u32,
        characteristics: u32,
    ) -> (r: NetConProperties)
        ensures
            r.live(),
            r.guid == guid,
            r.name == name,
            r.device_name == device_name,
            r.status == status,
            r.media_type == media_type,
            r.characteristics == characteristics,
    {
        NetConProperties {
            guid,
            name,
            device_name,
            status,
            media_type,
            characteristics,
            name_releases: 0,
            device_name_releases: 0,
            struct_releases: 0,
        }
    }

    /// The property values of this snapshot in a fresh, live
    /// allocation, as the platform produces for each properties request.
    pub open spec fn spec_fresh_copy(&self) -> NetConProperties {
        NetConProperties {
            guid: self.guid,
            name: self.name,
            device_name: self.device_name,
            status: self.status,
            media_type: self.media_type,
            characteristics: self.characteristics,
            name_releases: 0,
            device_name_releases: 0,
            struct_releases: 0,
        }
    }

    /// A fresh, live snapshot of this snapshot's property values.
    pub fn duplicate_as_fresh(&self) -> (r: NetConProperties)
        ensures
            r == self.spec_fresh_copy(),
    {
        NetConProperties {
            guid: self.guid,
            name: self.name.clone(),
            device_name: self.device_name.clone(),
            status: self.status,
            media_type: self.media_type,
            characteristics: self.characteristics,
            name_releases: 0,
            device_name_releases: 0,
            struct_releases: 0,
        }
    }

    /// An exact copy of this snapshot, release counters included.
    pub fn duplicate(&self) -> (r: NetConProperties)
        ensures
            r == *self,
    {
        NetConProperties {
            guid: self.guid,
            name: self.name.clone(),
            device_name: self.device_name.clone(),
            status: self.status,
            media_type: self.media_type,
            characteristics: self.characteristics,
            name_releases: self.name_releases,
            device_name_releases: self.device_name_releases,
            struct_releases: self.struct_releases,
        }
    }

    /// Free the two owned strings and the owning structure.
    ///
    /// Exactly one release of each owned allocation occurs over a
    /// snapshot's lifetime: this call demands a live snapshot — so no
    /// allocation is ever freed twice — and leaves every release counter
    /// at exactly one, so none is leaked.
    pub fn release(&mut self)
        requires
            old(self).live(),
        ensures
            final(self).released_exactly_once(),
            final(self).guid == old(self).guid,
            final(self).status == old(self).status,
            final(self).media_type == old(self).media_type,
            final(self).characteristics == old(self).characteristics,
    {
        self.name_releases = self.name_releases + 1;
        self.device_name_releases = self.device_name_releases + 1;
        self.struct_releases = self.struct_releases + 1;
    }

    /// The connection's identifier.
    pub fn guid(&self) -> (r: &Guid)
        requires
            self.live(),
        ensures
            *r == self.guid,
    {
        &self.guid
    }

    /// The connection's display name, as an owned copy.
    pub fn name(&self) -> (r: String)
        requires
            self.live(),
        ensures
            r@ == self.name@,
    {
        self.name.clone()
    }

    /// The device's display name, as an owned copy.
    pub fn device_name(&self) -> (r: String)
        requires
            self.live(),
        ensures
            r@ == self.device_name@,
    {
        self.device_name.clone()
    }

    /// The raw status code.
    pub fn raw_status(&self) -> (r: u32)
        requires
            self.live(),
        ensures
            r == self.status,
    {
        self.status
    }

    /// The decoded connection status, or the unrecognized raw code.
    pub fn status(&self) -> (r: Result<NetConStatus, u32>)
        requires
            self.live(),
        ensures
            r == NetConStatus::spec_try_from(self.status),
    {
        NetConStatus::try_from(self.status)
    }

    /// The raw media-type code.
    pub fn raw_media_type(&self) -> (r: u32)
        requires
            self.live(),
        ensures
            r == self.media_type,
    {
        self.media_type
    }

    /// The decoded media type, or the unrecognized raw code.
    pub fn media_type(&self) -> (r: Result<MediaType, u32>)
        requires
            self.live(),
        ensures
            r == MediaType::spec_try_from(self.media_type),
    {
        MediaType::try_from(self.media_type)
    }

    /// The raw characteristics word.
    pub fn raw_characteristics(&self) -> (r: u32)
        requires
            self.live(),
        ensures
            r == self.characteristics,
    {
        self.characteristics
    }

    /// The interpreted characteristics, or nothing when undefined bits
    /// are set.
    pub fn characteristics(&self) -> (r: Option<NetConCharacteristicFlags>)
        requires
            self.live(),
        ensures
            r == NetConCharacteristicFlags::spec_from_bits(self.characteristics),
    {
        NetConCharacteristicFlags::from_bits(self.characteristics)
    }
}

} // verus!
