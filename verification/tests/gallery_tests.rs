use pump::gallery::{gallery_fill, gallery_widget_id, gallery_widget_state, GalleryFill, GalleryState};

#[test]
fn gallery_labels_and_ids() {
    assert_eq!(GalleryState::Disabled.label(), "Disabled+sel+auto");
    assert_eq!(gallery_widget_id(0, 0), 9_000);
    assert_eq!(gallery_widget_id(2, 3), 9_019);
}

#[test]
fn gallery_fill_precedence_puts_disabled_first() {
    assert_eq!(gallery_fill(GalleryState::Disabled), GalleryFill::DisabledFill);
    assert_eq!(gallery_fill(GalleryState::Pressed), GalleryFill::PressedAccent);
    assert_eq!(gallery_fill(GalleryState::Selected), GalleryFill::SelectedAccent);
    assert_eq!(gallery_fill(GalleryState::SelectedFocusedAutomation), GalleryFill::SelectedAccent);
    assert_eq!(gallery_fill(GalleryState::Hover), GalleryFill::HoverOverlay);
    assert_eq!(gallery_fill(GalleryState::Default), GalleryFill::SurfaceBase);
    assert_eq!(gallery_fill(GalleryState::Focused), GalleryFill::SurfaceBase);
    assert_eq!(gallery_fill(GalleryState::Automation), GalleryFill::SurfaceBase);
}

#[test]
fn gallery_widget_state_flags_follow_the_column() {
    let disabled = gallery_widget_state(GalleryState::Disabled);
    assert!(disabled.disabled && disabled.selected && disabled.automation_active);
    assert!(!disabled.hovered && !disabled.pressed && !disabled.focused);

    let combined = gallery_widget_state(GalleryState::SelectedFocusedAutomation);
    assert!(combined.selected && combined.focused && combined.automation_active);
    assert!(!combined.disabled);

    let hover = gallery_widget_state(GalleryState::Hover);
    assert!(hover.hovered && !hover.pressed && !hover.selected);
}
