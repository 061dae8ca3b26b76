use kaijutsu_app::input::vim::{mode_kind, CursorKind};

#[test]
fn mode_kind_normal_is_block() {
    assert_eq!(mode_kind(None), CursorKind::Block);
}

#[test]
fn mode_kind_insert_is_beam() {
    assert_eq!(mode_kind(Some("-- INSERT --")), CursorKind::Beam);
}

#[test]
fn mode_kind_visual_is_hidden() {
    assert_eq!(mode_kind(Some("-- VISUAL --")), CursorKind::Hidden);
    assert_eq!(mode_kind(Some("-- VISUAL LINE --")), CursorKind::Hidden);
    assert_eq!(mode_kind(Some("-- VISUAL BLOCK --")), CursorKind::Hidden);
}

#[test]
fn mode_kind_replace_is_beam() {
    // Replace mode isn't shipping yet but the renderer should not
    // accidentally fall into "Block" here — beam is closer to vim's
    // underline-cursor convention than block.
    assert_eq!(mode_kind(Some("-- REPLACE --")), CursorKind::Beam);
}

#[test]
fn mode_kind_unknown_defaults_to_block() {
    assert_eq!(mode_kind(Some("-- WEIRDMODE --")), CursorKind::Block);
}
