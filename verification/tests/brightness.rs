use rush::commands::{calculate_ddc_mon_brightness, keyboard_backlight_level};
use rush::thinkpad_ctrl_fsm;
use rush::thinkpad_dock_control_fsm::{get_main_mon_brightness, get_thinkpad_x1_mon_brightness};

fn ddc_float(env: u32) -> u32 {
    let env = f64::from(env);
    if env <= 50.0 {
        return 0;
    }
    ((env * 0.07) as u32).clamp(0, 100)
}

fn x1_float(env: u32) -> u32 {
    let env = f64::from(env);
    let max_mon_brightness: f64 = 19393.0;
    let coef = 0.142_857_15;
    if env <= 50.0 {
        return 1000;
    }
    (((env * coef * max_mon_brightness) as u32) / 100).clamp(1000, max_mon_brightness as u32)
}

fn main_float(env: u32) -> u32 {
    let env = f64::from(env);
    let coef = 0.142_857_15;
    if env <= 50.0 {
        return 0;
    }
    ((env * coef) as u32).clamp(0, 100)
}

fn samples() -> Vec<u32> {
    let mut v: Vec<u32> = (0..=2_000_000).collect();
    v.extend((1..=214u32).map(|k| k * 20_000_000));
    let mut x: u64 = 1;
    while x < u32::MAX as u64 {
        for d in [0u64, 1, 2, 3, 7, 99] {
            if x + d <= u32::MAX as u64 {
                v.push((x + d) as u32);
            }
        }
        x = x * 3 + 1;
    }
    v.push(u32::MAX);
    v.push(u32::MAX - 1);
    v.push(20_000_000);
    v
}

#[test]
fn ddc_brightness_matches_floating_point_formula() {
    for env in samples() {
        assert_eq!(calculate_ddc_mon_brightness(env), ddc_float(env), "env = {env}");
    }
}

#[test]
fn laptop_brightness_matches_floating_point_formula() {
    for env in samples() {
        assert_eq!(get_thinkpad_x1_mon_brightness(env), x1_float(env), "env = {env}");
        assert_eq!(thinkpad_ctrl_fsm::get_thinkpad_x1_mon_brightness(env), x1_float(env));
    }
}

#[test]
fn main_brightness_matches_floating_point_formula() {
    for env in samples() {
        assert_eq!(get_main_mon_brightness(env), main_float(env), "env = {env}");
    }
}

#[test]
fn ddc_brightness_values() {
    assert_eq!(calculate_ddc_mon_brightness(0), 0);
    assert_eq!(calculate_ddc_mon_brightness(50), 0);
    assert_eq!(calculate_ddc_mon_brightness(51), 3);
    assert_eq!(calculate_ddc_mon_brightness(100), 7);
    assert_eq!(calculate_ddc_mon_brightness(1000), 70);
    assert_eq!(calculate_ddc_mon_brightness(1442), 100);
    assert_eq!(calculate_ddc_mon_brightness(1457), 101.min(100));
    assert_eq!(calculate_ddc_mon_brightness(u32::MAX), 100);
}

#[test]
fn laptop_and_main_brightness_values() {
    assert_eq!(get_thinkpad_x1_mon_brightness(50), 1000);
    assert_eq!(get_thinkpad_x1_mon_brightness(51), 1412);
    assert_eq!(get_thinkpad_x1_mon_brightness(350), 9696);
    assert_eq!(get_thinkpad_x1_mon_brightness(700), 19393);
    assert_eq!(get_thinkpad_x1_mon_brightness(u32::MAX), 19393);
    assert_eq!(get_main_mon_brightness(50), 0);
    assert_eq!(get_main_mon_brightness(51), 7);
    assert_eq!(get_main_mon_brightness(350), 50);
    assert_eq!(get_main_mon_brightness(700), 100);
    assert_eq!(get_main_mon_brightness(u32::MAX), 100);
}

#[test]
fn keyboard_levels() {
    assert_eq!(keyboard_backlight_level(0), 1);
    assert_eq!(keyboard_backlight_level(99), 1);
    assert_eq!(keyboard_backlight_level(100), 2);
    assert_eq!(keyboard_backlight_level(249), 2);
    assert_eq!(keyboard_backlight_level(250), 0);
    assert_eq!(keyboard_backlight_level(u32::MAX), 0);
}
