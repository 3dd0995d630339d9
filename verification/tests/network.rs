use corewlan::channel::CWChannel;
use corewlan::kinds::CWChannelBand;
use corewlan::kinds::CWChannelWidth;
use corewlan::kinds::CWPHYMode;
use corewlan::kinds::CWSecurity;
use corewlan::network::CWNetwork;

fn entitled_snapshot() -> CWNetwork {
    CWNetwork::new(
        String::from("office"),
        Some(String::from("aa:bb:cc:dd:ee:ff")),
        Some(String::from("DE")),
        -48,
        -95,
        102,
        false,
        CWChannel { number: 44, width: CWChannelWidth::W80MHz, band: CWChannelBand::B5GHz },
        vec![CWSecurity::WPA2Personal, CWSecurity::WPA3Personal],
        vec![CWPHYMode::M11n, CWPHYMode::M11ac],
    )
}

fn withheld_snapshot() -> CWNetwork {
    CWNetwork::new(
        String::from("cafe"),
        None,
        None,
        -70,
        -90,
        100,
        true,
        CWChannel { number: 6, width: CWChannelWidth::W20MHz, band: CWChannelBand::B2GHz },
        vec![CWSecurity::SecurityNone],
        vec![CWPHYMode::M11g],
    )
}

#[test]
fn snapshot_reads_back_scalars() {
    let n = entitled_snapshot();
    assert_eq!(n.ssid(), "office");
    assert_eq!(n.rssiValue(), -48);
    assert_eq!(n.noiseMeasurement(), -95);
    assert_eq!(n.beaconInterval(), 102);
    assert!(!n.ibss());
    let c = n.wlanChannel();
    assert_eq!(c.number, 44);
    assert_eq!(c.width, CWChannelWidth::W80MHz);
    assert_eq!(c.band, CWChannelBand::B5GHz);
}

#[test]
fn entitled_snapshot_yields_wellformed_text() {
    let n = entitled_snapshot();
    assert_eq!(n.bssid(), Some(String::from("aa:bb:cc:dd:ee:ff")));
    assert_eq!(n.countryCode(), Some(String::from("DE")));
}

#[test]
fn withheld_snapshot_yields_explicit_absence() {
    let n = withheld_snapshot();
    assert_eq!(n.bssid(), None);
    assert_eq!(n.countryCode(), None);
    // Absence is a genuine absent value, never empty text.
    assert_ne!(n.bssid(), Some(String::new()));
    assert!(n.ibss());
}

#[test]
fn supports_security_is_membership() {
    let n = entitled_snapshot();
    assert!(n.supportsSecurity(CWSecurity::WPA2Personal));
    assert!(n.supportsSecurity(CWSecurity::WPA3Personal));
    assert!(!n.supportsSecurity(CWSecurity::WEP));
    assert!(!n.supportsSecurity(CWSecurity::SecurityNone));
}

#[test]
fn supports_security_unknown_is_false() {
    let n = entitled_snapshot();
    assert!(!n.supportsSecurity(CWSecurity::Unknown));
}

#[test]
fn supports_phy_mode_is_membership() {
    let n = entitled_snapshot();
    assert!(n.supportsPHYMode(CWPHYMode::M11n));
    assert!(n.supportsPHYMode(CWPHYMode::M11ac));
    assert!(!n.supportsPHYMode(CWPHYMode::M11b));
    assert!(!n.supportsPHYMode(CWPHYMode::Unknown));
}
