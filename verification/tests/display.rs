use allegro::display::{
    Display, DisplayCall, DisplayFlags, DisplayOption, DisplayOptionImportance, DisplayOptions,
};
use allegro::native::AllocationError;

#[test]
fn default_options_ask_for_the_native_defaults() {
    let opt = DisplayOptions::new();
    assert_eq!(opt.flags.get(), 0);
    assert_eq!(opt.refresh_rate, None);
    assert_eq!(opt.adapter, None);
    assert_eq!(opt.window_position, None);
    assert!(opt.options.is_none());
    assert_eq!(
        Display::new_with_options(640, 480, &opt),
        vec![
            DisplayCall::SetNewDisplayFlags { bits: 0 },
            DisplayCall::SetNewDisplayRefreshRate { rate: 0 },
            DisplayCall::SetNewDisplayAdapter { adapter: None },
            DisplayCall::SetNewWindowPosition { x: 2147483647, y: 2147483647 },
            DisplayCall::ResetNewDisplayOptions,
            DisplayCall::CreateDisplay { w: 640, h: 480 },
        ]
    );
}

#[test]
fn given_options_are_applied_in_order_before_creation() {
    let list = [
        (DisplayOption::Vsync, 1, DisplayOptionImportance::Suggest),
        (DisplayOption::Samples, 4, DisplayOptionImportance::Require),
        (DisplayOption::Vsync, 2, DisplayOptionImportance::DontCare),
    ];
    let opt = DisplayOptions {
        flags: DisplayFlags::from_bits(0x11),
        refresh_rate: Some(60),
        adapter: Some(1),
        window_position: Some([10, -20]),
        options: Some(&list),
    };
    assert_eq!(
        Display::new_with_options(800, 600, &opt),
        vec![
            DisplayCall::SetNewDisplayFlags { bits: 0x11 },
            DisplayCall::SetNewDisplayRefreshRate { rate: 60 },
            DisplayCall::SetNewDisplayAdapter { adapter: Some(1) },
            DisplayCall::SetNewWindowPosition { x: 10, y: -20 },
            DisplayCall::ResetNewDisplayOptions,
            DisplayCall::SetNewDisplayOption {
                option: DisplayOption::Vsync,
                value: 1,
                importance: DisplayOptionImportance::Suggest
            },
            DisplayCall::SetNewDisplayOption {
                option: DisplayOption::Samples,
                value: 4,
                importance: DisplayOptionImportance::Require
            },
            DisplayCall::SetNewDisplayOption {
                option: DisplayOption::Vsync,
                value: 2,
                importance: DisplayOptionImportance::DontCare
            },
            DisplayCall::CreateDisplay { w: 800, h: 600 },
        ]
    );
}

#[test]
fn empty_option_list_adds_no_call() {
    let list: [(DisplayOption, i32, DisplayOptionImportance); 0] = [];
    let mut opt = DisplayOptions::new();
    opt.options = Some(&list);
    assert_eq!(Display::new_with_options(1, 1, &opt).len(), 6);
}

#[test]
fn display_holds_its_backbuffer_by_reference() {
    let d = Display::new(0xd000, 0xb000).unwrap();
    assert_eq!(d.get_display(), 0xd000);
    assert_eq!(d.get_backbuffer().get_bitmap(), 0xb000);
    assert!(d.get_backbuffer().is_ref());
}

#[test]
fn display_reports_null_as_allocation_error() {
    assert_eq!(Display::new(0, 0).unwrap_err(), AllocationError);
    assert_eq!(Display::new(0, 0xb000).unwrap_err(), AllocationError);
}

#[test]
fn display_destruction_releases_only_the_display() {
    let d = Display::new(0xd000, 0xb000).unwrap();
    assert_eq!(d.destroy(), vec![DisplayCall::DestroyDisplay { display: 0xd000 }]);
}

#[test]
fn flags_combine_and_contain() {
    let a = DisplayFlags::from_bits(0b0101);
    let b = DisplayFlags::from_bits(0b0011);
    assert_eq!(a.union(b).get(), 0b0111);
    assert!(a.union(b).contains(a));
    assert!(a.contains(DisplayFlags::from_bits(0b0100)));
    assert!(!a.contains(b));
    assert!(a.contains(DisplayFlags::empty()));
    assert_eq!(DisplayFlags::empty().get(), 0);
    assert_eq!(a, DisplayFlags::from_bits(5));
}
