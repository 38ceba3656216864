use cosmic_tweaks::button_config::{CosmicPanelButtonConfig, IndividualConfig, Override};
use cosmic_tweaks::color_schemes::{ColorScheme, ColorSchemes};
use cosmic_tweaks::dock::Dock;
use cosmic_tweaks::layouts::{Layout, Layouts};
use cosmic_tweaks::message::TweakMessage;
use cosmic_tweaks::panel::{CosmicPanel, Panel, PanelWrite};
use cosmic_tweaks::panel_config::PanelGeometry;
use cosmic_tweaks::theme_pack::{Notice, ThemePack};

fn ready_panel(membership: Vec<&str>, buttons: Vec<(&str, Option<Override>)>) -> Panel {
    Panel::new(
        true,
        Some(PanelGeometry {
            name: "Panel".to_string(),
            padding: 8,
            spacing: 10,
        }),
        Some(CosmicPanel {
            entries: membership.into_iter().map(|e| e.to_string()).collect(),
        }),
        Some(CosmicPanelButtonConfig {
            configs: buttons
                .into_iter()
                .map(|(n, f)| {
                    (
                        n.to_string(),
                        IndividualConfig {
                            force_presentation: f,
                        },
                    )
                })
                .collect(),
        }),
    )
}

#[test]
fn hydrates_cached_fields_from_loaded_values() {
    let panel = ready_panel(vec!["Dock", "Panel"], vec![("Panel", Some(Override::Icon))]);
    assert_eq!(panel.padding, 8);
    assert_eq!(panel.spacing, 10);
    assert!(panel.show_panel);
    assert!(panel.force_icons);
}

#[test]
fn defaults_when_stores_fail_to_open() {
    let panel = Panel::new(false, None, None, None);
    assert_eq!(panel.padding, 0);
    assert_eq!(panel.spacing, 0);
    assert!(!panel.show_panel);
    assert!(!panel.force_icons);
    assert!(panel.panel_config.is_none());
    assert!(panel.cosmic_panel_config.entries.is_empty());
    assert!(panel.cosmic_panel_button_config.configs.is_empty());
    assert!(!panel.has_panel_helper);
    assert!(!panel.has_cosmic_panel_config_helper);
    assert!(!panel.has_cosmic_panel_button_config_helper);
}

#[test]
fn defaults_for_the_other_pages() {
    let dock = Dock::new(None, &"Dock".to_string());
    assert_eq!(dock.padding, 0);
    assert_eq!(dock.spacing, 0);
    let layouts = Layouts::default();
    assert!(layouts.layouts.is_empty());
    assert!(layouts.selected_layout.is_none());
    let schemes = ColorSchemes::default();
    assert!(schemes.installed.is_empty());
    assert!(schemes.selected.is_none());
}

#[test]
fn geometry_for_another_panel_is_discarded() {
    let panel = Panel::new(
        true,
        Some(PanelGeometry {
            name: "Dock".to_string(),
            padding: 4,
            spacing: 4,
        }),
        None,
        None,
    );
    assert!(panel.panel_config.is_none());
    assert_eq!(panel.padding, 0);
    assert_eq!(panel.spacing, 0);
}

#[test]
fn dock_geometry_hydrates_dock() {
    let dock = Dock::new(
        Some(PanelGeometry {
            name: "Dock".to_string(),
            padding: 3,
            spacing: 5,
        }),
        &"Dock".to_string(),
    );
    assert_eq!(dock.padding, 3);
    assert_eq!(dock.spacing, 5);
}

#[test]
fn padding_set_and_read_back_after_successful_write() {
    let mut panel = ready_panel(vec![], vec![]);
    let write = panel.update(TweakMessage::SetPanelPadding(13));
    assert!(matches!(write, Some(PanelWrite::Padding(13))));
    assert_eq!(panel.padding, 13);
    panel.apply_write(write.unwrap(), true);
    assert_eq!(panel.padding, 13);
    assert_eq!(panel.panel_config.as_ref().unwrap().padding, 13);
}

#[test]
fn spacing_set_and_read_back_after_successful_write() {
    let mut panel = ready_panel(vec![], vec![]);
    let write = panel.update(TweakMessage::SetPanelSpacing(28));
    assert!(matches!(write, Some(PanelWrite::Spacing(28))));
    assert_eq!(panel.spacing, 28);
    panel.apply_write(write.unwrap(), true);
    assert_eq!(panel.spacing, 28);
    assert_eq!(panel.panel_config.as_ref().unwrap().spacing, 28);
}

#[test]
fn cached_padding_diverges_when_the_write_fails() {
    let mut panel = ready_panel(vec![], vec![]);
    let write = panel.update(TweakMessage::SetPanelPadding(9));
    panel.apply_write(write.unwrap(), false);
    assert_eq!(panel.padding, 9);
    assert_eq!(panel.panel_config.as_ref().unwrap().padding, 8);
}

#[test]
fn show_panel_appends_then_removes_membership_entry() {
    let mut panel = ready_panel(vec!["Dock"], vec![]);
    assert!(!panel.show_panel);

    let write = panel.update(TweakMessage::ShowPanel(true));
    let entries = match &write {
        Some(PanelWrite::Entries(es)) => es.clone(),
        _ => panic!("expected a membership write"),
    };
    assert_eq!(entries, vec!["Dock".to_string(), "Panel".to_string()]);
    assert!(!panel.show_panel);
    panel.apply_write(write.unwrap(), true);
    assert!(panel.show_panel);
    assert_eq!(
        panel.cosmic_panel_config.entries,
        vec!["Dock".to_string(), "Panel".to_string()]
    );

    let write = panel.update(TweakMessage::ShowPanel(false));
    let entries = match &write {
        Some(PanelWrite::Entries(es)) => es.clone(),
        _ => panic!("expected a membership write"),
    };
    assert_eq!(entries, vec!["Dock".to_string()]);
    panel.apply_write(write.unwrap(), true);
    assert!(!panel.show_panel);
    assert_eq!(panel.cosmic_panel_config.entries, vec!["Dock".to_string()]);
}

#[test]
fn show_panel_when_already_shown_writes_nothing() {
    let mut panel = ready_panel(vec!["Panel"], vec![]);
    let write = panel.update(TweakMessage::ShowPanel(true));
    assert!(write.is_none());
    assert_eq!(panel.cosmic_panel_config.entries, vec!["Panel".to_string()]);
}

#[test]
fn show_panel_flag_stays_stale_when_the_write_fails() {
    let mut panel = ready_panel(vec![], vec![]);
    let write = panel.update(TweakMessage::ShowPanel(true));
    assert!(write.is_some());
    panel.apply_write(write.unwrap(), false);
    assert!(!panel.show_panel);
    assert!(panel.cosmic_panel_config.entries.is_empty());
}

#[test]
fn force_icons_on_then_off_removes_the_override_entry() {
    let mut panel = ready_panel(vec![], vec![("Dock", Some(Override::Text))]);
    assert!(!panel.force_icons);

    let write = panel.update(TweakMessage::ForceIcons(true));
    let configs = match &write {
        Some(PanelWrite::Overrides(c)) => c.configs.clone(),
        _ => panic!("expected an override write"),
    };
    assert_eq!(
        configs,
        vec![
            (
                "Dock".to_string(),
                IndividualConfig {
                    force_presentation: Some(Override::Text)
                }
            ),
            (
                "Panel".to_string(),
                IndividualConfig {
                    force_presentation: Some(Override::Icon)
                }
            ),
        ]
    );
    panel.apply_write(write.unwrap(), true);
    assert!(panel.force_icons);

    let write = panel.update(TweakMessage::ForceIcons(false));
    let configs = match &write {
        Some(PanelWrite::Overrides(c)) => c.configs.clone(),
        _ => panic!("expected an override write"),
    };
    assert_eq!(
        configs,
        vec![(
            "Dock".to_string(),
            IndividualConfig {
                force_presentation: Some(Override::Text)
            }
        )]
    );
    panel.apply_write(write.unwrap(), true);
    assert!(!panel.force_icons);
    assert_eq!(panel.cosmic_panel_button_config.configs.len(), 1);
}

#[test]
fn force_icons_replaces_an_existing_override_in_place() {
    let mut panel = ready_panel(vec![], vec![("Panel", Some(Override::Text))]);
    let write = panel.update(TweakMessage::ForceIcons(true));
    let configs = match &write {
        Some(PanelWrite::Overrides(c)) => c.configs.clone(),
        _ => panic!("expected an override write"),
    };
    assert_eq!(
        configs,
        vec![(
            "Panel".to_string(),
            IndividualConfig {
                force_presentation: Some(Override::Icon)
            }
        )]
    );
    panel.apply_write(write.unwrap(), true);
    assert!(panel.force_icons);
}

#[test]
fn force_icons_flag_stays_stale_when_the_write_fails() {
    let mut panel = ready_panel(vec![], vec![]);
    let write = panel.update(TweakMessage::ForceIcons(true));
    assert!(write.is_some());
    panel.apply_write(write.unwrap(), false);
    assert!(!panel.force_icons);
    assert!(panel.cosmic_panel_button_config.configs.is_empty());
}

#[test]
fn unrelated_message_changes_nothing_and_writes_nothing() {
    let mut panel = ready_panel(vec!["Dock"], vec![("Dock", None)]);
    let write = panel.update(TweakMessage::SelectLayout(Layout::Cosmic));
    assert!(write.is_none());
    assert_eq!(panel.padding, 8);
    assert_eq!(panel.spacing, 10);
    assert!(!panel.show_panel);
    assert!(!panel.force_icons);
    assert_eq!(panel.cosmic_panel_config.entries, vec!["Dock".to_string()]);
    assert_eq!(panel.cosmic_panel_button_config.configs.len(), 1);
}

#[test]
fn panel_without_store_handles_ignores_every_message() {
    let mut panel = Panel::new(false, None, None, None);
    assert!(panel.update(TweakMessage::SetPanelPadding(5)).is_none());
    assert!(panel.update(TweakMessage::ShowPanel(true)).is_none());
    assert!(panel.update(TweakMessage::ForceIcons(true)).is_none());
    assert_eq!(panel.padding, 0);
    assert!(panel.cosmic_panel_config.entries.is_empty());
}

fn small_theme_pack() -> ThemePack {
    ThemePack::new(
        ColorSchemes::default(),
        Dock::new(None, &"Dock".to_string()),
        Panel::new(false, None, None, None),
        Layouts::default(),
    )
}

#[test]
fn theme_pack_apply_replaces_color_schemes() {
    let mut pack = small_theme_pack();
    let schemes = ColorSchemes {
        installed: vec![ColorScheme {
            name: "Nord".to_string(),
        }],
        selected: Some(ColorScheme {
            name: "Nord".to_string(),
        }),
    };
    let notice = pack.update(TweakMessage::ApplyThemePack(Layout::Cosmic, schemes));
    assert_eq!(notice, Some(Notice::Applying));
    assert_eq!(pack.color_schemes.installed.len(), 1);
    assert_eq!(pack.color_schemes.installed[0].name, "Nord");
    assert_eq!(pack.color_schemes.selected.as_ref().unwrap().name, "Nord");
}

#[test]
fn theme_pack_placeholder_actions_only_notice() {
    let mut pack = small_theme_pack();
    assert_eq!(pack.update(TweakMessage::SaveThemePack), Some(Notice::Saving));
    assert_eq!(
        pack.update(TweakMessage::DeleteThemePack),
        Some(Notice::Deleting)
    );
    assert_eq!(
        pack.update(TweakMessage::SelectLayout(Layout::Mac)),
        Some(Notice::SelectingLayout)
    );
    assert!(pack.color_schemes.installed.is_empty());
    assert_eq!(pack.dock.padding, 0);
}

#[test]
fn theme_pack_sets_dock_and_panel_scalars_directly() {
    let mut pack = small_theme_pack();
    assert!(pack.update(TweakMessage::SetDockPadding(7)).is_none());
    assert!(pack.update(TweakMessage::SetDockSpacing(11)).is_none());
    assert!(pack.update(TweakMessage::SetPanelPadding(19)).is_none());
    assert!(pack.update(TweakMessage::SetPanelSpacing(23)).is_none());
    assert_eq!(pack.dock.padding, 7);
    assert_eq!(pack.dock.spacing, 11);
    assert_eq!(pack.panel.padding, 19);
    assert_eq!(pack.panel.spacing, 23);
}

#[test]
fn theme_pack_ignores_messages_for_other_pages() {
    let mut pack = small_theme_pack();
    assert!(pack.update(TweakMessage::ShowPanel(true)).is_none());
    assert!(pack.update(TweakMessage::ForceIcons(true)).is_none());
    assert!(pack.update(TweakMessage::OpenAvailableThemes).is_none());
    assert!(pack.update(TweakMessage::OpenSaveDialog).is_none());
    assert_eq!(pack.dock.padding, 0);
    assert!(!pack.panel.show_panel);
    assert!(pack.color_schemes.installed.is_empty());
}
