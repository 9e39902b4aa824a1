use plug_gui::iced_editor::{application_name, create_iced_editor, IcedNiceSettings};
use plug_gui::resize_hint::{ResizeHint, SizeConstraints};
use plug_gui::timed::{timed, Application, Instance, UpdateFn};

type Settings = IcedNiceSettings<(f64, f64), bool>;

struct Sum;

impl UpdateFn<u64, u64, u64, bool> for Sum {
    fn update(&self, state: &mut u64, message: u64, now: u64) -> bool {
        *state += message * now;
        *state > 10
    }
}

#[test]
fn settings_are_plain_by_default() {
    let settings = Settings::new(true);
    assert_eq!(settings.title, "");
    assert!(!settings.resize_hint.can_resize);
    assert!(!settings.ignore_non_modifier_keys);
    assert!(!settings.always_redraw);
}

#[test]
fn settings_are_built_up() {
    let hint = ResizeHint {
        can_resize: true,
        size_constraints: SizeConstraints::Logical { min_size: None, max_size: None },
        refinement: false,
    };
    let settings = Settings::new(true)
        .with_tile("Gain".to_string())
        .with_resize_hint(hint)
        .with_ignore_non_modifier_keys(true)
        .with_always_redraw(true);
    assert_eq!(settings.title, "Gain");
    assert!(settings.resize_hint.can_resize);
    assert!(!settings.resize_hint.refinement);
    assert!(settings.ignore_non_modifier_keys);
    assert!(settings.always_redraw);
    let settings = settings.with_always_redraw(false);
    assert!(settings.ignore_non_modifier_keys);
    assert!(!settings.always_redraw);
}

#[test]
fn an_editor_holds_its_persistent_state() {
    let editor = create_iced_editor(1u8, "state", 2u16, Settings::new(true), "build").unwrap();
    assert_eq!(editor.editor_state, 1);
    assert_eq!(editor.persistent_state, Some("state"));
    assert_eq!(editor.notifier, 2);
    assert_eq!(editor.build, "build");
}

#[test]
fn an_application_is_named_after_its_crate() {
    assert_eq!(application_name("gain_gui::editor::State"), "gain_gui");
    assert_eq!(application_name("u32"), "u32");
    assert_eq!(application_name(""), "");
    assert_eq!(application_name("::x"), "");
    assert_eq!(application_name("a:b::c"), "a:b");
    assert_eq!(application_name("a:::b"), "a");
}

#[test]
fn a_message_is_processed_at_its_own_instant() {
    let application: Application<Instance<u8, Option<u8>, u8, Sum, u8, u8>, &str, u8> =
        timed(Some(1), 2, 3, Sum, 4, 5, "default");
    assert_eq!(application.raw.persistent_state, Some(1));
    assert_eq!(application.raw.nice_ctx, 2);
    assert_eq!((application.raw.boot, application.raw.subscription, application.raw.view), (3, 4, 5));
    assert_eq!(application.iced_settings, "default");
    assert!(application.presets.is_empty());
    let mut state = 0u64;
    assert!(!application.raw.update(&mut state, (2u64, 5u64)));
    assert_eq!(state, 10);
    assert!(application.raw.update(&mut state, (1u64, 1u64)));
    assert_eq!(state, 11);
}

#[test]
fn the_same_history_leads_to_the_same_state() {
    let history = [(1u64, 3u64), (4, 1), (1, 5)];
    let run = || {
        let mut state = 7u64;
        for (message, now) in history {
            Sum.update(&mut state, message, now);
        }
        state
    };
    assert_eq!(run(), 19);
    assert_eq!(run(), run());
}

#[test]
fn idle_update_logic_changes_nothing() {
    let mut state = 9u8;
    UpdateFn::<u8, &str, u64, ()>::update(&(), &mut state, "message", 1);
    assert_eq!(state, 9);
}

#[test]
fn booting_gets_the_state_and_the_context() {
    let boot = |persistent: &Option<u8>, context: &u16| (persistent.unwrap() as u32, *context);
    let application: Application<Instance<u16, Option<u8>, _, (), (), ()>, (), u8> =
        timed(Some(5), 6, boot, (), (), (), ());
    let booted: (u32, u16) = application.raw.boot();
    assert_eq!(booted, (5, 6));
}
