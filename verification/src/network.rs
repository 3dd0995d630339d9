//! A scanned network as a snapshot of plain values.
//!
//! A foreign scan-result object has a bounded lifetime tied to the scan
//! call that produced it, so every scalar and string property is copied
//! out into owned memory before the foreign call scope ends. The
//! snapshot built from those copies is what callers read; it carries no
//! foreign reference at all.
//!
//! Properties the OS withholds unless the process holds the required
//! entitlements -- the BSSID and the country code -- are genuine absent
//! values, never empty text and never a failure.

use vstd::prelude::*;

use crate::channel::CWChannel;
use crate::kinds::CWPHYMode;
use crate::kinds::CWSecurity;

verus! {

/// All observable properties of one scanned network, copied out of the
/// foreign scan result as owned values.
#[derive(Clone, Debug)]
pub struct CWNetwork {
    /// The service set identifier (SSID) of the network.
    pub ssid_text: String,
    /// The basic service set identifier (BSSID); absent when the OS
    /// withholds it from a process without the required entitlements.
    pub bssid_text: Option<String>,
    /// The country code (ISO/IEC 3166-1:1997); withheld under the same
    /// entitlement gate as the BSSID.
    pub country_code_text: Option<String>,
    /// The aggregate received signal strength indication (dBm).
    pub rssi_dbm: i64,
    /// The aggregate noise measurement (dBm).
    pub noise_dbm: i64,
    /// The beacon interval (ms).
    pub beacon_interval_ms: i64,
    /// Whether the network is an IBSS (peer-to-peer) network.
    pub is_ibss: bool,
    /// The channel the network operates on.
    pub chan: CWChannel,
    /// The security types the network supports.
    pub security_kinds: Vec<CWSecurity>,
    /// The PHY modes the network supports.
    pub phy_modes: Vec<CWPHYMode>,
}

impl CWNetwork {
    /// Builds a snapshot from the property values copied out of one
    /// foreign scan-result object.
    pub fn new(
        ssid_text: String,
        bssid_text: Option<String>,
        country_code_text: Option<String>,
        rssi_dbm: i64,
        noise_dbm: i64,
        beacon_interval_ms: i64,
        is_ibss: bool,
        chan: CWChannel,
        security_kinds: Vec<CWSecurity>,
        phy_modes: Vec<CWPHYMode>,
    ) -> (r: CWNetwork)
        ensures
            r.ssid_text == ssid_text,
            r.bssid_text == bssid_text,
            r.country_code_text == country_code_text,
            r.rssi_dbm == rssi_dbm,
            r.noise_dbm == noise_dbm,
            r.beacon_interval_ms == beacon_interval_ms,
            r.is_ibss == is_ibss,
            r.chan == chan,
            r.security_kinds == security_kinds,
            r.phy_modes == phy_modes,
    {
        CWNetwork {
            ssid_text,
            bssid_text,
            country_code_text,
            rssi_dbm,
            noise_dbm,
            beacon_interval_ms,
            is_ibss,
            chan,
            security_kinds,
            phy_modes,
        }
    }

    /// Whether the network supports the given security type. The query
    /// is a pure membership test against the closed enumeration; the
    /// sentinel never matches, so an unknown kind yields `false`, never
    /// an error.
    #[allow(non_snake_case)]
    pub fn supportsSecurity(&self, security: CWSecurity) -> (r: bool)
        ensures
            r == (security != CWSecurity::Unknown && self.security_kinds@.contains(security)),
    {
        if security == CWSecurity::Unknown {
            return false;
        }
        let mut i: usize = 0;
        while i < self.security_kinds.len()
            invariant
                0 <= i <= self.security_kinds.len(),
                security != CWSecurity::Unknown,
                forall|j: int| 0 <= j < i ==> self.security_kinds@[j] != security,
            decreases self.security_kinds.len() - i,
        {
            if self.security_kinds[i] == security {
                assert(self.security_kinds@.contains(security)) by {
                    assert(self.security_kinds@[i as int] == security);
                }
                return true;
            }
            i += 1;
        }
        false
    }

    /// Whether the network supports the given PHY mode; a pure
    /// membership test, with the same sentinel policy as the security
    /// query.
    #[allow(non_snake_case)]
    pub fn supportsPHYMode(&self, mode: CWPHYMode) -> (r: bool)
        ensures
            r == (mode != CWPHYMode::Unknown && self.phy_modes@.contains(mode)),
    {
        if mode == CWPHYMode::Unknown {
            return false;
        }
        let mut i: usize = 0;
        while i < self.phy_modes.len()
            invariant
                0 <= i <= self.phy_modes.len(),
                mode != CWPHYMode::Unknown,
                forall|j: int| 0 <= j < i ==> self.phy_modes@[j] != mode,
            decreases self.phy_modes.len() - i,
        {
            if self.phy_modes[i] == mode {
                assert(self.phy_modes@.contains(mode)) by {
                    assert(self.phy_modes@[i as int] == mode);
                }
                return true;
            }
            i += 1;
        }
        false
    }

    /// The beacon interval (ms) of the network.
    #[allow(non_snake_case)]
    pub fn beaconInterval(&self) -> (r: i64)
        ensures
            r == self.beacon_interval_ms,
    {
        self.beacon_interval_ms
    }

    /// The BSSID of the network, or an explicit absent value when the
    /// OS withheld it.
    pub fn bssid(&self) -> (r: Option<String>)
        ensures
            r == self.bssid_text,
    {
        match &self.bssid_text {
            Some(s) => Some(s.clone()),
            None => None,
        }
    }

    /// The country code of the network, or an explicit absent value
    /// when the OS withheld it.
    #[allow(non_snake_case)]
    pub fn countryCode(&self) -> (r: Option<String>)
        ensures
            r == self.country_code_text,
    {
        match &self.country_code_text {
            Some(s) => Some(s.clone()),
            None => None,
        }
    }

    /// Whether the network is an IBSS (peer-to-peer) network.
    pub fn ibss(&self) -> (r: bool)
        ensures
            r == self.is_ibss,
    {
        self.is_ibss
    }

    /// The aggregate noise measurement (dBm) of the network.
    #[allow(non_snake_case)]
    pub fn noiseMeasurement(&self) -> (r: i64)
        ensures
            r == self.noise_dbm,
    {
        self.noise_dbm
    }

    /// The aggregate received signal strength indication (dBm) of the
    /// network.
    #[allow(non_snake_case)]
    pub fn rssiValue(&self) -> (r: i64)
        ensures
            r == self.rssi_dbm,
    {
        self.rssi_dbm
    }

    /// The SSID of the network.
    pub fn ssid(&self) -> (r: String)
        ensures
            r == self.ssid_text,
    {
        self.ssid_text.clone()
    }

    /// The channel of the network.
    #[allow(non_snake_case)]
    pub fn wlanChannel(&self) -> (r: CWChannel)
        ensures
            r == self.chan,
    {
        self.chan
    }
}

} // verus!
