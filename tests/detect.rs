use chafa::config::Config;
use chafa::error::ChafaError;
use chafa::modes::{CanvasMode, Passthrough, PixelMode};
use chafa::term_info::{ProfileReport, TermInfo};

fn report(canvas: CanvasMode, pixel: PixelMode, passthrough: Passthrough, guarded: [bool; 3]) -> ProfileReport {
    ProfileReport {
        best_canvas_mode: canvas.to_raw(),
        best_pixel_mode: pixel.to_raw(),
        passthrough_type: passthrough.to_raw(),
        sixels_guarded: guarded[0],
        kitty_guarded: guarded[1],
        iterm2_guarded: guarded[2],
    }
}

#[test]
fn report_is_read_into_profile() {
    let r = report(CanvasMode::TrueColor, PixelMode::Kitty, Passthrough::Unguarded, [false; 3]);
    let t = TermInfo::detect(Some(r)).unwrap();
    assert_eq!(t.get_best_canvas_mode(), CanvasMode::TrueColor);
    assert_eq!(t.get_best_pixel_mode(), PixelMode::Kitty);
    assert_eq!(t.get_is_pixel_passthrough_needed(PixelMode::Kitty), Passthrough::Unguarded);
}

#[test]
fn raw_wire_values_are_mapped() {
    let r = ProfileReport {
        best_canvas_mode: 2,
        best_pixel_mode: 1,
        passthrough_type: 2,
        sixels_guarded: true,
        kitty_guarded: false,
        iterm2_guarded: false,
    };
    let t = TermInfo::detect(Some(r)).unwrap();
    assert_eq!(t.best_canvas_mode, CanvasMode::Indexed240);
    assert_eq!(t.best_pixel_mode, PixelMode::Sixels);
    assert_eq!(t.passthrough_type, Passthrough::Tmux);
}

#[test]
fn unknown_wire_values_read_as_first_variant() {
    let r = ProfileReport {
        best_canvas_mode: 99,
        best_pixel_mode: 77,
        passthrough_type: 55,
        sixels_guarded: false,
        kitty_guarded: false,
        iterm2_guarded: false,
    };
    let t = TermInfo::detect(Some(r)).unwrap();
    assert_eq!(t.best_canvas_mode, CanvasMode::TrueColor);
    assert_eq!(t.best_pixel_mode, PixelMode::Symbols);
    assert_eq!(t.passthrough_type, Passthrough::Unguarded);
}

#[test]
fn guards_follow_the_pixel_protocol() {
    let r = report(CanvasMode::TrueColor, PixelMode::Sixels, Passthrough::Screen, [true, false, true]);
    let t = TermInfo::detect(Some(r)).unwrap();
    assert_eq!(t.get_is_pixel_passthrough_needed(PixelMode::Sixels), Passthrough::Screen);
    assert_eq!(t.get_is_pixel_passthrough_needed(PixelMode::Kitty), Passthrough::Unguarded);
    assert_eq!(t.get_is_pixel_passthrough_needed(PixelMode::Iterm2), Passthrough::Screen);
    assert_eq!(t.get_is_pixel_passthrough_needed(PixelMode::Symbols), Passthrough::Unguarded);
    assert_eq!(t.get_is_pixel_passthrough_needed(PixelMode::Max), Passthrough::Unguarded);
}

#[test]
fn no_profile_fails_detection() {
    assert_eq!(TermInfo::detect(None), Err(ChafaError::DetectionFailed));
    assert!(matches!(Config::detect(None), Err(ChafaError::DetectionFailed)));
}

#[test]
fn max_in_report_fails_detection() {
    let r = report(CanvasMode::Max, PixelMode::Symbols, Passthrough::Unguarded, [false; 3]);
    assert_eq!(TermInfo::detect(Some(r)), Err(ChafaError::DetectionFailed));
    let r = report(CanvasMode::Indexed16, PixelMode::Max, Passthrough::Unguarded, [false; 3]);
    assert!(matches!(Config::detect(Some(r)), Err(ChafaError::DetectionFailed)));
    let r = report(CanvasMode::Indexed16, PixelMode::Sixels, Passthrough::Max, [true; 3]);
    assert_eq!(TermInfo::detect(Some(r)), Err(ChafaError::DetectionFailed));
}

#[test]
fn detection_twice_gives_same_profile() {
    let r = report(CanvasMode::Indexed256, PixelMode::Iterm2, Passthrough::Tmux, [false, false, true]);
    let a = TermInfo::detect(Some(r));
    let b = TermInfo::detect(Some(r));
    assert_eq!(a, b);
    assert_eq!(a.unwrap().capabilities(), b.unwrap().capabilities());
}

#[test]
fn detected_config_uses_best_modes() {
    let r = report(CanvasMode::TrueColor, PixelMode::Kitty, Passthrough::Tmux, [true, true, true]);
    let conf = Config::detect(Some(r)).unwrap();
    assert_eq!(conf.canvas_mode(), CanvasMode::TrueColor);
    assert_eq!(conf.pixel_mode(), PixelMode::Kitty);
    assert_eq!(conf.passthrough(), Passthrough::Tmux);
    assert_eq!(conf.term_info(), TermInfo::detect(Some(r)).ok());
    assert_eq!(conf.geometry(), (-1, -1));
}

#[test]
fn detected_config_modes_are_never_max() {
    for canvas in 0u32..12 {
        for pixel in 0u32..6 {
            for passthrough in 0u32..5 {
                let r = ProfileReport {
                    best_canvas_mode: canvas,
                    best_pixel_mode: pixel,
                    passthrough_type: passthrough,
                    sixels_guarded: true,
                    kitty_guarded: true,
                    iterm2_guarded: false,
                };
                if let Ok(conf) = Config::detect(Some(r)) {
                    assert_ne!(conf.canvas_mode(), CanvasMode::Max);
                    assert_ne!(conf.pixel_mode(), PixelMode::Max);
                    assert_ne!(conf.passthrough(), Passthrough::Max);
                } else {
                    assert!(canvas == 8 || pixel == 4 || passthrough == 3);
                }
            }
        }
    }
}

#[test]
fn capabilities_rank_best_modes() {
    let r = report(CanvasMode::Indexed16, PixelMode::Sixels, Passthrough::Tmux, [true, false, false]);
    let caps = TermInfo::detect(Some(r)).unwrap().capabilities();
    assert_eq!(caps.best_canvas_mode, CanvasMode::Indexed16);
    assert_eq!(caps.best_pixel_mode, PixelMode::Sixels);
    assert_eq!(caps.passthrough_required, Passthrough::Tmux);
    let r = report(CanvasMode::Indexed8, PixelMode::Symbols, Passthrough::Tmux, [true; 3]);
    let caps = TermInfo::detect(Some(r)).unwrap().capabilities();
    assert_eq!(caps.best_pixel_mode, PixelMode::Symbols);
    assert_eq!(caps.passthrough_required, Passthrough::Unguarded);
}

#[test]
fn blank_term_info_supports_nothing() {
    let t = TermInfo::new();
    assert_eq!(t.get_best_canvas_mode(), CanvasMode::FgBg);
    assert_eq!(t.get_best_pixel_mode(), PixelMode::Symbols);
    assert_eq!(t.get_is_pixel_passthrough_needed(PixelMode::Sixels), Passthrough::Unguarded);
}
