use crispy::render::format::select_surface_format;

#[test]
fn prefers_first_linear_format() {
    assert_eq!(select_surface_format(&vec![true, true, false, false]), 2);
    assert_eq!(select_surface_format(&vec![false, true]), 0);
}

#[test]
fn falls_back_to_first_when_all_srgb() {
    assert_eq!(select_surface_format(&vec![true]), 0);
    assert_eq!(select_surface_format(&vec![true, true, true]), 0);
}
