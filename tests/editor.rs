use hammerspace::editor::{
    get_selected_scheme, page_to_open, scheme_selection, theme_update, Contrast, Page, Scheme,
};

#[test]
fn selected_scheme_from_controls() {
    assert_eq!(get_selected_scheme(None, Some(1)), None);
    assert_eq!(get_selected_scheme(Some(0), Some(0)), Some(Scheme::Light(Contrast::Standard)));
    assert_eq!(get_selected_scheme(Some(1), Some(1)), Some(Scheme::Dark(Contrast::Medium)));
    assert_eq!(get_selected_scheme(Some(0), Some(2)), Some(Scheme::Light(Contrast::High)));
}

#[test]
fn out_of_range_selections_fall_back() {
    assert_eq!(get_selected_scheme(Some(7), Some(9)), Some(Scheme::Light(Contrast::Standard)));
    assert_eq!(get_selected_scheme(Some(1), None), Some(Scheme::Dark(Contrast::Standard)));
}

#[test]
fn selection_of_scheme() {
    assert_eq!(scheme_selection(Scheme::Light(Contrast::Standard)), (0, 0));
    assert_eq!(scheme_selection(Scheme::Dark(Contrast::High)), (1, 2));
    assert_eq!(scheme_selection(Scheme::Light(Contrast::Medium)), (0, 1));
}

#[test]
fn selection_round_trip() {
    for c in [Contrast::Standard, Contrast::Medium, Contrast::High] {
        for s in [Scheme::Light(c), Scheme::Dark(c)] {
            let (switch, contrast) = scheme_selection(s);
            assert_eq!(get_selected_scheme(Some(switch), Some(contrast)), Some(s));
        }
    }
}

#[test]
fn theme_updates_only_on_change() {
    let light = Scheme::Light(Contrast::Standard);
    let dark = Scheme::Dark(Contrast::Standard);
    assert_eq!(theme_update(light, Some(dark)), Some(dark));
    assert_eq!(theme_update(light, Some(light)), None);
    assert_eq!(theme_update(light, None), None);
}

#[test]
fn last_interacted_page_opens() {
    let items = vec![(Page::Layout, true), (Page::Playground, true), (Page::Blank, false)];
    assert_eq!(page_to_open(&items), Some(Page::Playground));
    assert_eq!(page_to_open(&vec![(Page::Layout, false)]), None);
    assert_eq!(page_to_open(&vec![]), None);
}
