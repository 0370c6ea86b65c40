use csp::auth::hash;
use csp::logs::DateStyle;
use csp::logs::LogType;
use csp::logs::RuleType;
use csp::logs::Style;
use csp::logs::DEFAULT_NO_ROUTE;
use csp::logs::DEFAULT_PATTERN;
use csp::weapons::BulletType;
use csp::weapons::FireArmType;
use csp::weapons::GuidanceType;
use csp::weapons::MissileGuidanceType;
use csp::weapons::ProjectileType;
use csp::weapons::PropulsionType;
use csp::weapons::ShellType;
use csp::weapons::WarheadCharge;
use csp::weapons::WarheadType;

#[test]
fn hash_known_digest() {
    assert_eq!(
        hash("abc"),
        "ba7816bf8f01cfea414140de5dae2223b00361a396177a9cb410ff61f20015ad"
    );
    assert_eq!(
        hash(""),
        "e3b0c44298fc1c149afbf4c8996fb92427ae41e4649b934ca495991b7852b855"
    );
}

#[test]
fn weapon_codes_decode() {
    assert_eq!(BulletType::from_i64(0), Some(BulletType::Ordinary));
    assert_eq!(BulletType::from_i64(7), Some(BulletType::Fragmentation));
    assert_eq!(BulletType::from_i64(8), None);

    assert_eq!(FireArmType::from_i64(3), Some(FireArmType::Assault));
    assert_eq!(FireArmType::from_i64(6), None);

    assert_eq!(ProjectileType::from_i64(1), Some(ProjectileType::Ballistic));
    assert_eq!(ProjectileType::from_i64(2), None);

    assert_eq!(MissileGuidanceType::from_i64(2), Some(MissileGuidanceType::Heat));
    assert_eq!(MissileGuidanceType::from_i64(5), None);

    assert_eq!(WarheadType::from_i64(6), Some(WarheadType::Icbm));
    assert_eq!(WarheadType::from_i64(-1), None);

    assert_eq!(WarheadCharge::from_i64(2), Some(WarheadCharge::Nuclear));
    assert_eq!(WarheadCharge::from_i64(4), None);
    assert_eq!(WarheadCharge::default(), WarheadCharge::Standard);

    assert_eq!(ShellType::from_i64(7), Some(ShellType::Mortar));
    assert_eq!(ShellType::from_i64(9), None);

    assert_eq!(PropulsionType::from_i64(1), Some(PropulsionType::Sneaky));
    assert_eq!(PropulsionType::from_i64(3), None);

    assert_eq!(GuidanceType::from_i64(3), Some(GuidanceType::AirSea));
    assert_eq!(GuidanceType::from_i64(4), None);
}

#[test]
fn log_levels_order() {
    assert!(LogType::Trace < LogType::Debug);
    assert!(LogType::Debug < LogType::Info);
    assert!(LogType::Info < LogType::Warn);
    assert!(LogType::Warn < LogType::Error);
    assert!(LogType::Error < LogType::Panic);
    assert_eq!(LogType::default(), LogType::Info);
    assert_eq!(LogType::Panic.rank(), 5);
}

#[test]
fn style_colors() {
    let mut style = Style::default();
    assert_eq!(style.get_color(&LogType::Trace), Some(37));
    assert_eq!(style.get_color(&LogType::Info), Some(34));
    assert_eq!(style.get_color(&LogType::Warn), Some(33));
    assert_eq!(style.get_color(&LogType::Panic), Some(31));

    style.set_color(LogType::Info, 90);
    assert_eq!(style.get_color(&LogType::Info), Some(90));

    style.remove_color(LogType::Info);
    assert_eq!(style.get_color(&LogType::Info), None);
    assert_eq!(style.get_color(&LogType::Warn), Some(33));
}

#[test]
fn style_settings() {
    let mut style = Style::default();
    assert!(matches!(style.get_date_style(), DateStyle::HourMinuteSecond));
    assert!(!style.get_print_route_when_none());

    style.set_date_style(DateStyle::Full);
    assert!(matches!(style.get_date_style(), DateStyle::Full));

    style.set_print_route_when_none(true);
    assert!(style.get_print_route_when_none());

    style.set_pattern("{type} {text}");
    style.set_no_route("-");
    assert_eq!(DEFAULT_NO_ROUTE, "::");
    assert_eq!(DEFAULT_PATTERN, "[{date}] \x1b[37m[{type}]\x1b[0m {route} {c}{text}{sc}");
}

#[test]
fn rule_kinds_distinct() {
    assert_ne!(RuleType::ExcludeRoute, RuleType::ExcludeText);
    assert_ne!(RuleType::WriteTo, RuleType::RequireRoute);
    assert_ne!(RuleType::GreaterLevelThan, RuleType::LessLevelThan);
}
