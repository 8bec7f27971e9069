use chafa::modes::{CanvasMode, Passthrough, PixelMode, PixelType};

#[test]
fn pixel_mode_wire_values_round_trip() {
    let all = [PixelMode::Symbols, PixelMode::Sixels, PixelMode::Kitty, PixelMode::Iterm2, PixelMode::Max];
    for (i, m) in all.iter().enumerate() {
        assert_eq!(m.to_raw(), i as u32);
        assert_eq!(PixelMode::from_raw(i as u32), *m);
        assert_eq!(u32::from(*m), i as u32);
        assert_eq!(PixelMode::from(i as u32), *m);
    }
}

#[test]
fn unknown_pixel_mode_reads_as_symbols() {
    assert_eq!(PixelMode::from_raw(5), PixelMode::Symbols);
    assert_eq!(PixelMode::from(u32::MAX), PixelMode::Symbols);
}

#[test]
fn canvas_mode_wire_values_round_trip() {
    let all = [
        CanvasMode::TrueColor,
        CanvasMode::Indexed256,
        CanvasMode::Indexed240,
        CanvasMode::Indexed16,
        CanvasMode::FgbgBgfg,
        CanvasMode::FgBg,
        CanvasMode::Indexed8,
        CanvasMode::Indexed168,
        CanvasMode::Max,
    ];
    for (i, m) in all.iter().enumerate() {
        assert_eq!(m.to_raw(), i as u32);
        assert_eq!(CanvasMode::from_raw(i as u32), *m);
        assert_eq!(u32::from(*m), i as u32);
    }
    assert_eq!(CanvasMode::from(9u32), CanvasMode::TrueColor);
}

#[test]
fn passthrough_wire_values_round_trip() {
    let all = [Passthrough::Unguarded, Passthrough::Screen, Passthrough::Tmux, Passthrough::Max];
    for (i, m) in all.iter().enumerate() {
        assert_eq!(m.to_raw(), i as u32);
        assert_eq!(Passthrough::from(i as u32), *m);
    }
    assert_eq!(Passthrough::from_raw(4), Passthrough::Unguarded);
}

#[test]
fn pixel_type_wire_values_round_trip() {
    let all = [
        PixelType::RGBA8Premultiplied,
        PixelType::BGRA8Premultiplied,
        PixelType::ARGB8Premultiplied,
        PixelType::ABGR8Premultiplied,
        PixelType::RGBA8Unassociated,
        PixelType::BGRA8Unassociated,
        PixelType::ARGB8Unassociated,
        PixelType::ABGR8Unassociated,
        PixelType::RGB8,
        PixelType::BGR8,
        PixelType::Max,
    ];
    for (i, m) in all.iter().enumerate() {
        assert_eq!(m.to_raw(), i as u32);
        assert_eq!(PixelType::from_raw(i as u32), *m);
        assert_eq!(u32::from(*m), i as u32);
    }
    assert_eq!(PixelType::from(11u32), PixelType::RGBA8Premultiplied);
}

#[test]
fn bytes_per_pixel_by_type() {
    assert_eq!(PixelType::RGBA8Unassociated.bytes_per_pixel(), 4);
    assert_eq!(PixelType::ABGR8Premultiplied.bytes_per_pixel(), 4);
    assert_eq!(PixelType::RGB8.bytes_per_pixel(), 3);
    assert_eq!(PixelType::BGR8.bytes_per_pixel(), 3);
    assert_eq!(PixelType::Max.bytes_per_pixel(), 0);
}

#[test]
fn max_sentinels_are_recognised() {
    assert!(CanvasMode::Max.is_max());
    assert!(!CanvasMode::TrueColor.is_max());
    assert!(PixelMode::Max.is_max());
    assert!(Passthrough::Max.is_max());
    assert!(!PixelType::RGB8.is_max());
}
