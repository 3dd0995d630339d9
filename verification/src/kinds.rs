//! Closed enumerations mirroring the foreign runtime's integer constants.
//!
//! Each enumeration carries an explicit `Unknown` sentinel so that a
//! numeric value outside the known set -- which a future OS version may
//! introduce -- converts to the sentinel instead of failing. Three
//! conversions are provided for each enumeration:
//!
//! * `to_i64`: the numeric constant of a variant;
//! * `try_from_i64`: the variant for a known constant, `None` otherwise;
//! * `from_i64`: total conversion, mapping unknown constants to the
//!   sentinel.

use vstd::prelude::*;

verus! {

/// Security types a network may support.
#[derive(Clone, Copy, Debug, PartialEq, Eq, Structural)]
pub enum CWSecurity {
    /// Open System authentication (no security).
    SecurityNone,
    /// WEP security.
    WEP,
    /// WPA Personal authentication.
    WPAPersonal,
    /// WPA/WPA2 Personal authentication.
    WPAPersonalMixed,
    /// WPA2 Personal authentication.
    WPA2Personal,
    /// Personal authentication.
    Personal,
    /// Dynamic WEP security.
    DynamicWEP,
    /// WPA Enterprise authentication.
    WPAEnterprise,
    /// WPA/WPA2 Enterprise authentication.
    WPAEnterpriseMixed,
    /// WPA2 Enterprise authentication.
    WPA2Enterprise,
    /// Enterprise authentication.
    Enterprise,
    /// WPA3 Personal authentication.
    WPA3Personal,
    /// WPA3 Enterprise authentication.
    WPA3Enterprise,
    /// WPA3 Transition (WPA3/WPA2 Personal) authentication.
    WPA3Transition,
    /// Sentinel for a security constant outside the known set.
    Unknown,
}

/// The numeric constant the foreign runtime uses for a security type.
pub open spec fn security_code(v: CWSecurity) -> int {
    match v {
        CWSecurity::SecurityNone => 0,
        CWSecurity::WEP => 1,
        CWSecurity::WPAPersonal => 2,
        CWSecurity::WPAPersonalMixed => 3,
        CWSecurity::WPA2Personal => 4,
        CWSecurity::Personal => 5,
        CWSecurity::DynamicWEP => 6,
        CWSecurity::WPAEnterprise => 7,
        CWSecurity::WPAEnterpriseMixed => 8,
        CWSecurity::WPA2Enterprise => 9,
        CWSecurity::Enterprise => 10,
        CWSecurity::WPA3Personal => 11,
        CWSecurity::WPA3Enterprise => 12,
        CWSecurity::WPA3Transition => 13,
        CWSecurity::Unknown => i64::MAX as int,
    }
}

/// Whether a numeric value is one of the known security constants.
pub open spec fn is_security_code(x: int) -> bool {
    (0 <= x <= 13) || x == i64::MAX as int
}

/// Total conversion from a numeric value to a security type: values
/// outside the known set map to the sentinel.
pub open spec fn security_of_code(x: int) -> CWSecurity {
    if x == 0 {
        CWSecurity::SecurityNone
    } else if x == 1 {
        CWSecurity::WEP
    } else if x == 2 {
        CWSecurity::WPAPersonal
    } else if x == 3 {
        CWSecurity::WPAPersonalMixed
    } else if x == 4 {
        CWSecurity::WPA2Personal
    } else if x == 5 {
        CWSecurity::Personal
    } else if x == 6 {
        CWSecurity::DynamicWEP
    } else if x == 7 {
        CWSecurity::WPAEnterprise
    } else if x == 8 {
        CWSecurity::WPAEnterpriseMixed
    } else if x == 9 {
        CWSecurity::WPA2Enterprise
    } else if x == 10 {
        CWSecurity::Enterprise
    } else if x == 11 {
        CWSecurity::WPA3Personal
    } else if x == 12 {
        CWSecurity::WPA3Enterprise
    } else if x == 13 {
        CWSecurity::WPA3Transition
    } else {
        CWSecurity::Unknown
    }
}

impl CWSecurity {
    /// The numeric constant of this security type.
    pub fn to_i64(self) -> (r: i64)
        ensures
            r as int == security_code(self),
    {
        match self {
            CWSecurity::SecurityNone => 0,
            CWSecurity::WEP => 1,
            CWSecurity::WPAPersonal => 2,
            CWSecurity::WPAPersonalMixed => 3,
            CWSecurity::WPA2Personal => 4,
            CWSecurity::Personal => 5,
            CWSecurity::DynamicWEP => 6,
            CWSecurity::WPAEnterprise => 7,
            CWSecurity::WPAEnterpriseMixed => 8,
            CWSecurity::WPA2Enterprise => 9,
            CWSecurity::Enterprise => 10,
            CWSecurity::WPA3Personal => 11,
            CWSecurity::WPA3Enterprise => 12,
            CWSecurity::WPA3Transition => 13,
            CWSecurity::Unknown => i64::MAX,
        }
    }

    /// The security type for a known numeric constant, `None` otherwise.
    pub fn try_from_i64(data: i64) -> (r: Option<CWSecurity>)
        ensures
            is_security_code(data as int) ==> r == Some(security_of_code(data as int)),
            !is_security_code(data as int) ==> r is None,
    {
        if (0 <= data && data <= 13) || data == i64::MAX {
            Some(Self::from_i64(data))
        } else {
            None
        }
    }

    /// Total conversion from a numeric value: values outside the known
    /// set yield [`CWSecurity::Unknown`].
    pub fn from_i64(data: i64) -> (r: CWSecurity)
        ensures
            r == security_of_code(data as int),
    {
        if data == 0 {
            CWSecurity::SecurityNone
        } else if data == 1 {
            CWSecurity::WEP
        } else if data == 2 {
            CWSecurity::WPAPersonal
        } else if data == 3 {
            CWSecurity::WPAPersonalMixed
        } else if data == 4 {
            CWSecurity::WPA2Personal
        } else if data == 5 {
            CWSecurity::Personal
        } else if data == 6 {
            CWSecurity::DynamicWEP
        } else if data == 7 {
            CWSecurity::WPAEnterprise
        } else if data == 8 {
            CWSecurity::WPAEnterpriseMixed
        } else if data == 9 {
            CWSecurity::WPA2Enterprise
        } else if data == 10 {
            CWSecurity::Enterprise
        } else if data == 11 {
            CWSecurity::WPA3Personal
        } else if data == 12 {
            CWSecurity::WPA3Enterprise
        } else if data == 13 {
            CWSecurity::WPA3Transition
        } else {
            CWSecurity::Unknown
        }
    }
}

/// Round trip: every security variant survives conversion to its numeric
/// constant and back.
pub proof fn lemma_security_round_trip(v: CWSecurity)
    ensures
        is_security_code(security_code(v)),
        security_of_code(security_code(v)) == v,
{
}

/// Forward compatibility: a numeric value outside the known set converts
/// to the sentinel, never to a failure.
pub proof fn lemma_security_out_of_range(x: int)
    ensures
        !is_security_code(x) ==> security_of_code(x) == CWSecurity::Unknown,
{
}

/// Physical layer modes a network may support.
#[derive(Clone, Copy, Debug, PartialEq, Eq, Structural)]
pub enum CWPHYMode {
    /// No specified mode.
    ModeNone,
    /// IEEE 802.11a PHY.
    M11a,
    /// IEEE 802.11b PHY.
    M11b,
    /// IEEE 802.11g PHY.
    M11g,
    /// IEEE 802.11n PHY.
    M11n,
    /// IEEE 802.11ac PHY.
    M11ac,
    /// IEEE 802.11ax PHY.
    M11ax,
    /// Sentinel for a PHY-mode constant outside the known set.
    Unknown,
}

/// The numeric constant the foreign runtime uses for a PHY mode.
pub open spec fn phy_mode_code(v: CWPHYMode) -> int {
    match v {
        CWPHYMode::ModeNone => 0,
        CWPHYMode::M11a => 1,
        CWPHYMode::M11b => 2,
        CWPHYMode::M11g => 3,
        CWPHYMode::M11n => 4,
        CWPHYMode::M11ac => 5,
        CWPHYMode::M11ax => 6,
        CWPHYMode::Unknown => i64::MAX as int,
    }
}

/// Whether a numeric value is one of the known PHY-mode constants.
pub open spec fn is_phy_mode_code(x: int) -> bool {
    (0 <= x <= 6) || x == i64::MAX as int
}

/// Total conversion from a numeric value to a PHY mode: values outside
/// the known set map to the sentinel.
pub open spec fn phy_mode_of_code(x: int) -> CWPHYMode {
    if x == 0 {
        CWPHYMode::ModeNone
    } else if x == 1 {
        CWPHYMode::M11a
    } else if x == 2 {
        CWPHYMode::M11b
    } else if x == 3 {
        CWPHYMode::M11g
    } else if x == 4 {
        CWPHYMode::M11n
    } else if x == 5 {
        CWPHYMode::M11ac
    } else if x == 6 {
        CWPHYMode::M11ax
    } else {
        CWPHYMode::Unknown
    }
}

impl CWPHYMode {
    /// The numeric constant of this PHY mode.
    pub fn to_i64(self) -> (r: i64)
        ensures
            r as int == phy_mode_code(self),
    {
        match self {
            CWPHYMode::ModeNone => 0,
            CWPHYMode::M11a => 1,
            CWPHYMode::M11b => 2,
            CWPHYMode::M11g => 3,
            CWPHYMode::M11n => 4,
            CWPHYMode::M11ac => 5,
            CWPHYMode::M11ax => 6,
            CWPHYMode::Unknown => i64::MAX,
        }
    }

    /// The PHY mode for a known numeric constant, `None` otherwise.
    pub fn try_from_i64(data: i64) -> (r: Option<CWPHYMode>)
        ensures
            is_phy_mode_code(data as int) ==> r == Some(phy_mode_of_code(data as int)),
            !is_phy_mode_code(data as int) ==> r is None,
    {
        if (0 <= data && data <= 6) || data == i64::MAX {
            Some(Self::from_i64(data))
        } else {
            None
        }
    }

    /// Total conversion from a numeric value: values outside the known
    /// set yield [`CWPHYMode::Unknown`].
    pub fn from_i64(data: i64) -> (r: CWPHYMode)
        ensures
            r == phy_mode_of_code(data as int),
    {
        if data == 0 {
            CWPHYMode::ModeNone
        } else if data == 1 {
            CWPHYMode::M11a
        } else if data == 2 {
            CWPHYMode::M11b
        } else if data == 3 {
            CWPHYMode::M11g
        } else if data == 4 {
            CWPHYMode::M11n
        } else if data == 5 {
            CWPHYMode::M11ac
        } else if data == 6 {
            CWPHYMode::M11ax
        } else {
            CWPHYMode::Unknown
        }
    }
}

/// Round trip: every PHY-mode variant survives conversion to its numeric
/// constant and back.
pub proof fn lemma_phy_mode_round_trip(v: CWPHYMode)
    ensures
        is_phy_mode_code(phy_mode_code(v)),
        phy_mode_of_code(phy_mode_code(v)) == v,
{
}

/// Forward compatibility: a numeric value outside the known set converts
/// to the sentinel, never to a failure.
pub proof fn lemma_phy_mode_out_of_range(x: int)
    ensures
        !is_phy_mode_code(x) ==> phy_mode_of_code(x) == CWPHYMode::Unknown,
{
}

/// The width of a wireless channel.
#[derive(Clone, Copy, Debug, PartialEq, Eq, Structural)]
pub enum CWChannelWidth {
    /// Unknown channel width.
    Unknown,
    /// 20MHz channel width.
    W20MHz,
    /// 40MHz channel width.
    W40MHz,
    /// 80MHz channel width.
    W80MHz,
    /// 160MHz channel width.
    W160MHz,
}

/// The numeric constant the foreign runtime uses for a channel width.
pub open spec fn width_code(v: CWChannelWidth) -> int {
    match v {
        CWChannelWidth::Unknown => 0,
        CWChannelWidth::W20MHz => 1,
        CWChannelWidth::W40MHz => 2,
        CWChannelWidth::W80MHz => 3,
        CWChannelWidth::W160MHz => 4,
    }
}

/// Whether a numeric value is one of the known channel-width constants.
pub open spec fn is_width_code(x: int) -> bool {
    0 <= x <= 4
}

/// Total conversion from a numeric value to a channel width: values
/// outside the known set map to the sentinel.
pub open spec fn width_of_code(x: int) -> CWChannelWidth {
    if x == 1 {
        CWChannelWidth::W20MHz
    } else if x == 2 {
        CWChannelWidth::W40MHz
    } else if x == 3 {
        CWChannelWidth::W80MHz
    } else if x == 4 {
        CWChannelWidth::W160MHz
    } else {
        CWChannelWidth::Unknown
    }
}

impl CWChannelWidth {
    /// The numeric constant of this channel width.
    pub fn to_i64(self) -> (r: i64)
        ensures
            r as int == width_code(self),
    {
        match self {
            CWChannelWidth::Unknown => 0,
            CWChannelWidth::W20MHz => 1,
            CWChannelWidth::W40MHz => 2,
            CWChannelWidth::W80MHz => 3,
            CWChannelWidth::W160MHz => 4,
        }
    }

    /// The channel width for a known numeric constant, `None` otherwise.
    pub fn try_from_i64(data: i64) -> (r: Option<CWChannelWidth>)
        ensures
            is_width_code(data as int) ==> r == Some(width_of_code(data as int)),
            !is_width_code(data as int) ==> r is None,
    {
        if 0 <= data && data <= 4 {
            Some(Self::from_i64(data))
        } else {
            None
        }
    }

    /// Total conversion from a numeric value: values outside the known
    /// set yield [`CWChannelWidth::Unknown`].
    pub fn from_i64(data: i64) -> (r: CWChannelWidth)
        ensures
            r == width_of_code(data as int),
    {
        if data == 1 {
            CWChannelWidth::W20MHz
        } else if data == 2 {
            CWChannelWidth::W40MHz
        } else if data == 3 {
            CWChannelWidth::W80MHz
        } else if data == 4 {
            CWChannelWidth::W160MHz
        } else {
            CWChannelWidth::Unknown
        }
    }
}

/// Round trip: every channel-width variant survives conversion to its
/// numeric constant and back.
pub proof fn lemma_width_round_trip(v: CWChannelWidth)
    ensures
        is_width_code(width_code(v)),
        width_of_code(width_code(v)) == v,
{
}

/// Forward compatibility: a numeric value outside the known set converts
/// to the sentinel, never to a failure.
pub proof fn lemma_width_out_of_range(x: int)
    ensures
        !is_width_code(x) ==> width_of_code(x) == CWChannelWidth::Unknown,
{
}

/// The band of a wireless channel.
#[derive(Clone, Copy, Debug, PartialEq, Eq, Structural)]
pub enum CWChannelBand {
    /// Unknown channel band.
    Unknown,
    /// 2.4GHz channel band.
    B2GHz,
    /// 5GHz channel band.
    B5GHz,
}

/// The numeric constant the foreign runtime uses for a channel band.
pub open spec fn band_code(v: CWChannelBand) -> int {
    match v {
        CWChannelBand::Unknown => 0,
        CWChannelBand::B2GHz => 1,
        CWChannelBand::B5GHz => 2,
    }
}

/// Whether a numeric value is one of the known channel-band constants.
pub open spec fn is_band_code(x: int) -> bool {
    0 <= x <= 2
}

/// Total conversion from a numeric value to a channel band: values
/// outside the known set map to the sentinel.
pub open spec fn band_of_code(x: int) -> CWChannelBand {
    if x == 1 {
        CWChannelBand::B2GHz
    } else if x == 2 {
        CWChannelBand::B5GHz
    } else {
        CWChannelBand::Unknown
    }
}

impl CWChannelBand {
    /// The numeric constant of this channel band.
    pub fn to_i64(self) -> (r: i64)
        ensures
            r as int == band_code(self),
    {
        match self {
            CWChannelBand::Unknown => 0,
            CWChannelBand::B2GHz => 1,
            CWChannelBand::B5GHz => 2,
        }
    }

    /// The channel band for a known numeric constant, `None` otherwise.
    pub fn try_from_i64(data: i64) -> (r: Option<CWChannelBand>)
        ensures
            is_band_code(data as int) ==> r == Some(band_of_code(data as int)),
            !is_band_code(data as int) ==> r is None,
    {
        if 0 <= data && data <= 2 {
            Some(Self::from_i64(data))
        } else {
            None
        }
    }

    /// Total conversion from a numeric value: values outside the known
    /// set yield [`CWChannelBand::Unknown`].
    pub fn from_i64(data: i64) -> (r: CWChannelBand)
        ensures
            r == band_of_code(data as int),
    {
        if data == 1 {
            CWChannelBand::B2GHz
        } else if data == 2 {
            CWChannelBand::B5GHz
        } else {
            CWChannelBand::Unknown
        }
    }
}

/// Round trip: every channel-band variant survives conversion to its
/// numeric constant and back.
pub proof fn lemma_band_round_trip(v: CWChannelBand)
    ensures
        is_band_code(band_code(v)),
        band_of_code(band_code(v)) == v,
{
}

/// Forward compatibility: a numeric value outside the known set converts
/// to the sentinel, never to a failure.
pub proof fn lemma_band_out_of_range(x: int)
    ensures
        !is_band_code(x) ==> band_of_code(x) == CWChannelBand::Unknown,
{
}

} // verus!
