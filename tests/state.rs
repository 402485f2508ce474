use squeekboard::animation::{self, Timestamp};
use squeekboard::imservice::{ContentHint, ContentPurpose};
use squeekboard::layout::ArrangementKind;
use squeekboard::outputs::{Geometry, Mode, OutputId, OutputState, Size, Transform};
use squeekboard::panel::PixelSize;
use squeekboard::state::visibility;
use squeekboard::state::{Application, Event, InputMethod, InputMethodDetails, Presence};

fn imdetails_new() -> InputMethodDetails {
    InputMethodDetails {
        purpose: ContentPurpose::Normal,
        hint: ContentHint::none(),
    }
}

fn fake_output_id(id: u64) -> OutputId {
    OutputId(id)
}

fn application_with_fake_output(start: Timestamp) -> Application {
    let id = fake_output_id(1);
    let outputs = vec![(
        id,
        OutputState {
            current_mode: None,
            geometry: None,
            scale: 1,
        },
    )];
    Application {
        preferred_output: Some(id),
        outputs,
        ..Application::new(start)
    }
}

fn millis(t: Timestamp, ms: i64) -> Timestamp {
    Timestamp(t.0 + ms)
}

fn is_visible(o: &animation::Outcome) -> bool {
    matches!(o, animation::Outcome::Visible { .. })
}

/// Test the basic delay scenario: no flicker on quick switches.
#[test]
fn avoid_hide() {
    let start = Timestamp(1_000_000);
    let mut now = start;
    let state = Application {
        im: InputMethod::Active(imdetails_new()),
        physical_keyboard: Presence::Missing,
        visibility_override: visibility::State::NotForced,
        ..application_with_fake_output(start)
    };

    let state = state.apply_event(Event::InputMethod(InputMethod::InactiveSince(now)), now);
    // Check 100ms at 1ms intervals. It should remain visible.
    for _i in 0..100 {
        now = millis(now, 1);
        assert!(
            is_visible(&state.get_outcome(now).panel),
            "Hidden when it should remain visible: {:?}",
            now.0 - start.0,
        );
    }

    let state = state.apply_event(Event::InputMethod(InputMethod::Active(imdetails_new())), now);

    assert!(is_visible(&state.get_outcome(now).panel));
}

/// Make sure that hiding works when input method goes away
#[test]
fn hide_when_inactive() {
    let start = Timestamp(1_000_000);
    let mut now = start;
    let state = Application {
        im: InputMethod::Active(imdetails_new()),
        physical_keyboard: Presence::Missing,
        visibility_override: visibility::State::NotForced,
        ..application_with_fake_output(start)
    };

    let state = state.apply_event(Event::InputMethod(InputMethod::InactiveSince(now)), now);

    while let animation::Outcome::Visible { .. } = state.get_outcome(now).panel {
        now = millis(now, 1);
        assert!(
            now.0 < start.0 + 250,
            "Hiding too slow: {:?}",
            now.0 - start.0,
        );
    }
}

/// Check against the false showing bug.
/// Expectation: it will get hidden and not appear again
#[test]
fn false_show() {
    let start = Timestamp(1_000_000);
    let mut now = start;
    let state = Application {
        im: InputMethod::Active(imdetails_new()),
        physical_keyboard: Presence::Missing,
        visibility_override: visibility::State::NotForced,
        ..application_with_fake_output(start)
    };
    // This reflects the sequence from Wayland:
    // disable, disable, enable, disable
    // all in a single batch.
    let state = state.apply_event(Event::InputMethod(InputMethod::InactiveSince(now)), now);
    let state = state.apply_event(Event::InputMethod(InputMethod::InactiveSince(now)), now);
    let state = state.apply_event(Event::InputMethod(InputMethod::Active(imdetails_new())), now);
    let state = state.apply_event(Event::InputMethod(InputMethod::InactiveSince(now)), now);

    while let animation::Outcome::Visible { .. } = state.get_outcome(now).panel {
        now = millis(now, 1);
        assert!(
            now.0 < start.0 + 250,
            "Still not hidden: {:?}",
            now.0 - start.0,
        );
    }

    // One second without appearing again
    for _i in 0..1000 {
        now = millis(now, 1);
        assert_eq!(
            state.get_outcome(now).panel,
            animation::Outcome::Hidden,
            "Appeared unnecessarily: {:?}",
            now.0 - start.0,
        );
    }
}

#[test]
fn force_visible() {
    let start = Timestamp(1_000_000);
    let mut now = start;
    let state = Application {
        im: InputMethod::InactiveSince(now),
        physical_keyboard: Presence::Missing,
        visibility_override: visibility::State::NotForced,
        ..application_with_fake_output(start)
    };
    now = millis(now, 1000);

    let state = state.apply_event(Event::Visibility(visibility::Event::ForceVisible), now);
    assert!(
        is_visible(&state.get_outcome(now).panel),
        "Failed to show: {:?}",
        now.0 - start.0,
    );

    now = millis(now, 1000);
    let state = state.apply_event(Event::InputMethod(InputMethod::Active(imdetails_new())), now);
    now = millis(now, 1000);
    let state = state.apply_event(Event::InputMethod(InputMethod::InactiveSince(now)), now);
    now = millis(now, 1000);

    assert_eq!(
        state.get_outcome(now).panel,
        animation::Outcome::Hidden,
        "Failed to release forced visibility: {:?}",
        now.0 - start.0,
    );
}

#[test]
fn keyboard_present() {
    let start = Timestamp(1_000_000);
    let mut now = start;
    let state = Application {
        im: InputMethod::Active(imdetails_new()),
        physical_keyboard: Presence::Missing,
        visibility_override: visibility::State::NotForced,
        ..application_with_fake_output(start)
    };
    now = millis(now, 1000);

    let state = state.apply_event(Event::PhysicalKeyboard(Presence::Present), now);
    assert_eq!(
        state.get_outcome(now).panel,
        animation::Outcome::Hidden,
        "Failed to hide: {:?}",
        now.0 - start.0,
    );

    now = millis(now, 1000);
    let state = state.apply_event(Event::InputMethod(InputMethod::InactiveSince(now)), now);
    now = millis(now, 1000);
    let state = state.apply_event(Event::InputMethod(InputMethod::Active(imdetails_new())), now);

    assert_eq!(
        state.get_outcome(now).panel,
        animation::Outcome::Hidden,
        "Failed to remain hidden: {:?}",
        now.0 - start.0,
    );

    now = millis(now, 1000);
    let state = state.apply_event(Event::PhysicalKeyboard(Presence::Missing), now);

    assert!(
        is_visible(&state.get_outcome(now).panel),
        "Failed to appear: {:?}",
        now.0 - start.0,
    );
}

fn scaling_test(pixel_width: u32, pixel_height: u32, physical_width: u32, physical_height: u32, scale: u32, expected_pixel_height: u32, kind: ArrangementKind) {
    assert_eq!(
        Application::get_preferred_height_and_arrangement(&OutputState {
            current_mode: Some(Mode {
                width: pixel_width,
                height: pixel_height,
            }),
            geometry: Some(Geometry {
                transform: Transform::Normal,
                phys_size: Size {
                    width: Some(physical_width),
                    height: Some(physical_height),
                },
            }),
            scale,
        }),
        Some((
            PixelSize {
                scale_factor: scale,
                pixels: expected_pixel_height,
            },
            kind,
        )),
    );
}

fn scaling_test_base(pixel_width: u32, pixel_height: u32, physical_width: u32, physical_height: u32, scale: u32, expected_pixel_height: u32) {
    scaling_test(pixel_width, pixel_height, physical_width, physical_height, scale, expected_pixel_height, ArrangementKind::Base)
}

fn scaling_test_wide(pixel_width: u32, pixel_height: u32, physical_width: u32, physical_height: u32, scale: u32, expected_pixel_height: u32) {
    scaling_test(pixel_width, pixel_height, physical_width, physical_height, scale, expected_pixel_height, ArrangementKind::Wide)
}

#[test]
fn size_optimus_vu() {
    scaling_test_base(768, 1024, 76, 102, 2, 384)
}

#[test]
fn size_optimus_vu_horizontal() {
    scaling_test_base(1024, 768, 102, 76, 2, 381)
}

#[test]
fn size_n900() {
    scaling_test_base(480, 800, 46, 76, 1, 280)
}

#[test]
fn size_n900_horizontal() {
    scaling_test_base(800, 480, 76, 46, 1, 240)
}

#[test]
fn size_galaxy_xcover_2() {
    scaling_test_base(480, 800, 52, 87, 1, 280)
}

#[test]
fn size_galaxy_xcover_2_horizontal() {
    scaling_test_base(800, 480, 87, 52, 1, 240)
}

#[test]
fn size_galaxy_s4_mini() {
    scaling_test_base(540, 960, 53, 95, 1, 315)
}

#[test]
fn size_galaxy_s4_mini_horizontal() {
    scaling_test_base(960, 540, 95, 53, 1, 270)
}

#[test]
fn size_xperia_xz1_compact() {
    scaling_test_base(720, 1280, 57, 102, 2, 420)
}

#[test]
fn size_xperia_xz1_compact_horizontal() {
    scaling_test_base(1280, 720, 102, 57, 2, 360)
}

#[test]
fn size_fairphone_2() {
    scaling_test_base(1080, 1920, 62, 111, 3, 630)
}

#[test]
fn size_fairphone_2_horizontal() {
    scaling_test_wide(1920, 1080, 111, 62, 3, 540)
}

#[test]
fn size_xperia_xa2() {
    scaling_test_base(1080, 1920, 65, 115, 3, 630)
}

#[test]
fn size_xperia_xa2_horizontal() {
    scaling_test_wide(1920, 1080, 115, 65, 3, 540)
}

#[test]
fn size_galaxy_e7() {
    scaling_test_base(720, 1280, 69, 122, 2, 396)
}

#[test]
fn size_galaxy_e7_horizontal() {
    scaling_test_wide(1280, 720, 122, 69, 2, 360)
}

#[test]
fn size_mi_note_2() {
    scaling_test_base(1080, 1920, 71, 126, 3, 577)
}

#[test]
fn size_mi_note_2_horizontal() {
    scaling_test_wide(1920, 1080, 126, 71, 3, 540)
}

#[test]
fn size_librem_5() {
    scaling_test_base(720, 1440, 65, 130, 2, 420)
}

#[test]
fn size_librem_5_horizontal() {
    scaling_test_wide(1440, 720, 130, 65, 2, 360)
}

#[test]
fn size_librem_5_scale1() {
    scaling_test_base(720, 1440, 65, 130, 1, 420)
}

#[test]
fn size_librem_5_scale1_horizontal() {
    scaling_test_wide(1440, 720, 130, 65, 1, 360)
}

#[test]
fn size_pinephone_pro() {
    scaling_test_base(720, 1440, 68, 136, 2, 402)
}

#[test]
fn size_pinephone_pro_horizontal() {
    scaling_test_wide(1440, 720, 136, 68, 2, 360)
}

#[test]
fn size_shift6mq() {
    scaling_test_base(1080, 2160, 68, 136, 3, 603)
}

#[test]
fn size_shift6mq_horizontal() {
    scaling_test_wide(2160, 1080, 136, 68, 3, 540)
}

#[test]
fn size_poco_f1() {
    scaling_test_base(1080, 2246, 68, 142, 3, 603)
}

#[test]
fn size_poco_f1_horizontal() {
    scaling_test_wide(2246, 1080, 142, 68, 3, 540)
}

#[test]
fn size_mi_a2_lite() {
    scaling_test_base(1080, 2280, 64, 134, 3, 630)
}

#[test]
fn size_mi_a2_lite_horizontal() {
    scaling_test_wide(2280, 1080, 134, 64, 3, 540)
}

#[test]
fn size_oneplus_6() {
    scaling_test_base(1080, 2280, 68, 144, 3, 603)
}

#[test]
fn size_oneplus_6_horizontal() {
    scaling_test_wide(2280, 1080, 144, 68, 3, 540)
}

#[test]
fn size_fairphone_4() {
    scaling_test_base(1080, 2340, 67, 145, 3, 612)
}

#[test]
fn size_fairphone_4_horizontal() {
    scaling_test_wide(2340, 1080, 145, 67, 3, 540)
}

#[test]
fn size_oneplus_6t() {
    scaling_test_base(1080, 2340, 68, 148, 3, 603)
}

#[test]
fn size_oneplus_6t_horizontal() {
    scaling_test_wide(2340, 1080, 148, 68, 3, 540)
}

#[test]
fn size_fairphone_5() {
    scaling_test_base(1224, 2720, 67, 150, 3, 693)
}

#[test]
fn size_fairphone_5_horizontal() {
    scaling_test_wide(2720, 1224, 150, 67, 3, 612)
}

#[test]
fn size_oneplus_8t() {
    scaling_test_base(1080, 2400, 70, 155, 3, 586)
}

#[test]
fn size_oneplus_8t_horizontal() {
    scaling_test_wide(2400, 1080, 155, 70, 3, 540)
}

#[test]
fn size_nintendo_3ds_lower() {
    scaling_test_base(240, 320, 46, 61, 1, 140)
}

#[test]
fn size_nintendo_3ds_lower_horizontal() {
    scaling_test_base(320, 240, 61, 46, 1, 120)
}

#[test]
fn size_steam_deck_lcd() {
    scaling_test_base(800, 1280, 94, 151, 1, 323)
}

#[test]
fn size_steam_deck_lcd_horizontal() {
    scaling_test_wide(1280, 800, 151, 94, 1, 322)
}

#[test]
fn size_steam_deck_oled() {
    scaling_test_base(800, 1280, 100, 159, 1, 304)
}

#[test]
fn size_steam_deck_oled_horizontal() {
    scaling_test_wide(1280, 800, 159, 100, 1, 306)
}

#[test]
fn size_legion_go() {
    scaling_test_wide(1600, 2560, 119, 190, 1, 510)
}

#[test]
fn size_legion_go_horizontal() {
    scaling_test_wide(2560, 1600, 190, 119, 1, 511)
}

#[test]
fn size_nintendo_3ds_upper() {
    scaling_test_base(240, 400, 46, 77, 1, 140)
}

#[test]
fn size_nintendo_3ds_upper_horizontal() {
    scaling_test_base(400, 240, 77, 46, 1, 120)
}

#[test]
fn size_rog_ally() {
    scaling_test_base(1080, 1920, 87, 155, 1, 471)
}

#[test]
fn size_rog_ally_horizontal() {
    scaling_test_wide(1920, 1080, 155, 87, 1, 470)
}

#[test]
fn size_galaxy_tab_a_8_0() {
    scaling_test_wide(768, 1024, 122, 163, 1, 239)
}

#[test]
fn size_galaxy_tab_a_8_0_horizontal() {
    scaling_test_wide(1024, 768, 163, 122, 1, 239)
}

#[test]
fn size_galaxy_tab_s2_9_7() {
    scaling_test_wide(1536, 2048, 148, 197, 2, 394)
}

#[test]
fn size_galaxy_tab_s2_9_7_horizontal() {
    scaling_test_wide(2048, 1536, 197, 148, 2, 395)
}

#[test]
fn size_galaxy_tab_3_8_0() {
    scaling_test_base(800, 1280, 108, 172, 1, 281)
}

#[test]
fn size_galaxy_tab_3_8_0_horizontal() {
    scaling_test_wide(1280, 800, 172, 108, 1, 283)
}

#[test]
fn size_pinetab2() {
    scaling_test_wide(800, 1280, 136, 218, 1, 224)
}

#[test]
fn size_pinetab2_horizontal() {
    scaling_test_wide(1280, 800, 218, 136, 1, 223)
}

#[test]
fn size_librem_11() {
    scaling_test_wide(1600, 2560, 155, 248, 1, 392)
}

#[test]
fn size_librem_11_horizontal() {
    scaling_test_wide(2560, 1600, 248, 155, 1, 392)
}

#[test]
fn size_galaxy_tab_2_7_0() {
    scaling_test_base(600, 1024, 90, 153, 1, 253)
}

#[test]
fn size_galaxy_tab_2_7_0_horizontal() {
    scaling_test_wide(1024, 600, 153, 90, 1, 254)
}

#[test]
fn size_macbook_air_m1() {
    scaling_test_wide(1600, 2560, 179, 287, 2, 339)
}

#[test]
fn size_macbook_air_m1_horizontal() {
    scaling_test_wide(2560, 1600, 287, 179, 2, 339)
}

#[test]
fn size_notebook_pc_15() {
    scaling_test_wide(768, 1366, 194, 345, 1, 151)
}

#[test]
fn size_notebook_pc_15_horizontal() {
    scaling_test_wide(1366, 768, 345, 194, 1, 151)
}

#[test]
fn size_notebook_pc_15_1080() {
    scaling_test_wide(1080, 1920, 194, 345, 1, 212)
}

#[test]
fn size_notebook_pc_15_1080_horizontal() {
    scaling_test_wide(1920, 1080, 345, 194, 1, 212)
}

#[test]
fn size_notebook_pc_17() {
    scaling_test_wide(768, 1366, 215, 383, 1, 136)
}

#[test]
fn size_notebook_pc_17_horizontal() {
    scaling_test_wide(1366, 768, 383, 215, 1, 136)
}

#[test]
fn size_notebook_pc_17_1440() {
    scaling_test_wide(1080, 1920, 215, 383, 1, 191)
}

#[test]
fn size_notebook_pc_17_1440_horizontal() {
    scaling_test_wide(1920, 1080, 383, 215, 1, 191)
}

#[test]
fn size_1280_1024_19_monitor() {
    scaling_test_wide(1024, 1280, 302, 377, 1, 129)
}

#[test]
fn size_1280_1024_19_monitor_horizontal() {
    scaling_test_wide(1280, 1024, 377, 302, 1, 129)
}

#[test]
fn size_crt_monitor() {
    scaling_test_wide(768, 1024, 229, 305, 1, 128)
}

#[test]
fn size_crt_monitor_horizontal() {
    scaling_test_wide(1024, 768, 305, 229, 1, 128)
}

#[test]
fn size_ntsc_monitor() {
    scaling_test_wide(480, 640, 305, 406, 1, 60)
}

#[test]
fn size_ntsc_monitor_horizontal() {
    scaling_test_wide(640, 480, 406, 305, 1, 60)
}

#[test]
fn size_pal_monitor() {
    scaling_test_wide(576, 768, 305, 406, 1, 72)
}

#[test]
fn size_pal_monitor_horizontal() {
    scaling_test_wide(768, 576, 406, 305, 1, 72)
}

#[test]
fn size_1600_1200_21_3_monitor() {
    scaling_test_wide(1200, 1600, 325, 433, 1, 141)
}

#[test]
fn size_1600_1200_21_3_monitor_horizontal() {
    scaling_test_wide(1600, 1200, 433, 325, 1, 141)
}

#[test]
fn size_1920_1200_22_5_monitor() {
    scaling_test_wide(1200, 1920, 303, 485, 1, 151)
}

#[test]
fn size_1920_1200_22_5_monitor_horizontal() {
    scaling_test_wide(1920, 1200, 485, 303, 1, 151)
}

#[test]
fn size_large_monitor() {
    scaling_test_wide(2160, 3840, 336, 598, 1, 244)
}

#[test]
fn size_large_monitor_horizontal() {
    scaling_test_wide(3840, 2160, 598, 336, 1, 244)
}

#[test]
fn size_very_large_monitor() {
    scaling_test_wide(2160, 3840, 473, 841, 1, 174)
}

#[test]
fn size_very_large_monitor_horizontal() {
    scaling_test_wide(3840, 2160, 841, 473, 1, 174)
}

#[test]
fn size_huge_monitor() {
    scaling_test_wide(2160, 3840, 598, 1063, 2, 137)
}

#[test]
fn size_huge_monitor_horizontal() {
    scaling_test_wide(3840, 2160, 1063, 598, 2, 137)
}

#[test]
fn size_uhd_2_monitor() {
    scaling_test_wide(4320, 7680, 685, 1218, 3, 240)
}

#[test]
fn size_uhd_2_monitor_horizontal() {
    scaling_test_wide(7680, 4320, 1218, 685, 3, 240)
}

#[test]
fn size_huge_uhd_2_monitor() {
    scaling_test_wide(4320, 7680, 1059, 1882, 4, 155)
}

#[test]
fn size_huge_uhd_2_monitor_horizontal() {
    scaling_test_wide(7680, 4320, 1882, 1059, 4, 155)
}

#[test]
fn size_very_wide_monitor() {
    scaling_test_wide(1440, 3440, 334, 797, 1, 164)
}

#[test]
fn size_very_wide_monitor_horizontal() {
    scaling_test_wide(3440, 1440, 797, 334, 1, 164)
}

#[test]
fn size_ultrawide_monitor() {
    scaling_test_wide(1440, 5120, 337, 1198, 1, 163)
}

#[test]
fn size_ultrawide_monitor_horizontal() {
    scaling_test_wide(5120, 1440, 1198, 337, 1, 163)
}
