use corewlan::kinds::CWChannelBand;
use corewlan::kinds::CWChannelWidth;
use corewlan::kinds::CWPHYMode;
use corewlan::kinds::CWSecurity;

#[test]
fn security_round_trip() {
    let variants = [
        CWSecurity::SecurityNone,
        CWSecurity::WEP,
        CWSecurity::WPAPersonal,
        CWSecurity::WPAPersonalMixed,
        CWSecurity::WPA2Personal,
        CWSecurity::Personal,
        CWSecurity::DynamicWEP,
        CWSecurity::WPAEnterprise,
        CWSecurity::WPAEnterpriseMixed,
        CWSecurity::WPA2Enterprise,
        CWSecurity::Enterprise,
        CWSecurity::WPA3Personal,
        CWSecurity::WPA3Enterprise,
        CWSecurity::WPA3Transition,
        CWSecurity::Unknown,
    ];
    for v in variants {
        assert_eq!(CWSecurity::try_from_i64(v.to_i64()), Some(v));
        assert_eq!(CWSecurity::from_i64(v.to_i64()), v);
    }
}

#[test]
fn security_numeric_values() {
    assert_eq!(CWSecurity::SecurityNone.to_i64(), 0);
    assert_eq!(CWSecurity::WPA2Personal.to_i64(), 4);
    assert_eq!(CWSecurity::WPA3Transition.to_i64(), 13);
    assert_eq!(CWSecurity::Unknown.to_i64(), i64::MAX);
}

#[test]
fn security_out_of_range() {
    assert_eq!(CWSecurity::from_i64(14), CWSecurity::Unknown);
    assert_eq!(CWSecurity::from_i64(-1), CWSecurity::Unknown);
    assert_eq!(CWSecurity::from_i64(i64::MAX - 1), CWSecurity::Unknown);
    assert!(CWSecurity::try_from_i64(14).is_none());
    assert!(CWSecurity::try_from_i64(-1).is_none());
}

#[test]
fn phy_mode_round_trip() {
    let variants = [
        CWPHYMode::ModeNone,
        CWPHYMode::M11a,
        CWPHYMode::M11b,
        CWPHYMode::M11g,
        CWPHYMode::M11n,
        CWPHYMode::M11ac,
        CWPHYMode::M11ax,
        CWPHYMode::Unknown,
    ];
    for v in variants {
        assert_eq!(CWPHYMode::try_from_i64(v.to_i64()), Some(v));
        assert_eq!(CWPHYMode::from_i64(v.to_i64()), v);
    }
}

#[test]
fn phy_mode_numeric_values() {
    assert_eq!(CWPHYMode::ModeNone.to_i64(), 0);
    assert_eq!(CWPHYMode::M11ax.to_i64(), 6);
    assert_eq!(CWPHYMode::Unknown.to_i64(), i64::MAX);
}

#[test]
fn phy_mode_out_of_range() {
    assert_eq!(CWPHYMode::from_i64(7), CWPHYMode::Unknown);
    assert_eq!(CWPHYMode::from_i64(-1), CWPHYMode::Unknown);
    assert!(CWPHYMode::try_from_i64(7).is_none());
}

#[test]
fn width_round_trip() {
    let variants = [
        CWChannelWidth::Unknown,
        CWChannelWidth::W20MHz,
        CWChannelWidth::W40MHz,
        CWChannelWidth::W80MHz,
        CWChannelWidth::W160MHz,
    ];
    for v in variants {
        assert_eq!(CWChannelWidth::try_from_i64(v.to_i64()), Some(v));
        assert_eq!(CWChannelWidth::from_i64(v.to_i64()), v);
    }
}

#[test]
fn width_numeric_values() {
    assert_eq!(CWChannelWidth::Unknown.to_i64(), 0);
    assert_eq!(CWChannelWidth::W20MHz.to_i64(), 1);
    assert_eq!(CWChannelWidth::W160MHz.to_i64(), 4);
}

#[test]
fn width_out_of_range() {
    assert_eq!(CWChannelWidth::from_i64(5), CWChannelWidth::Unknown);
    assert_eq!(CWChannelWidth::from_i64(-7), CWChannelWidth::Unknown);
    assert!(CWChannelWidth::try_from_i64(5).is_none());
    assert!(CWChannelWidth::try_from_i64(-1).is_none());
}

#[test]
fn band_round_trip() {
    let variants = [CWChannelBand::Unknown, CWChannelBand::B2GHz, CWChannelBand::B5GHz];
    for v in variants {
        assert_eq!(CWChannelBand::try_from_i64(v.to_i64()), Some(v));
        assert_eq!(CWChannelBand::from_i64(v.to_i64()), v);
    }
}

#[test]
fn band_numeric_values() {
    assert_eq!(CWChannelBand::Unknown.to_i64(), 0);
    assert_eq!(CWChannelBand::B2GHz.to_i64(), 1);
    assert_eq!(CWChannelBand::B5GHz.to_i64(), 2);
}

#[test]
fn band_out_of_range() {
    assert_eq!(CWChannelBand::from_i64(3), CWChannelBand::Unknown);
    assert_eq!(CWChannelBand::from_i64(-1), CWChannelBand::Unknown);
    assert!(CWChannelBand::try_from_i64(3).is_none());
}
