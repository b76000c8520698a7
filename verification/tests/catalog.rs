use portcullis::catalog::{catalog_is_fit, Collection, ContentCycle, Video};

fn video(name: &str) -> Video {
    Video::new(name.to_string(), format!("https://img.example/{}.jpg", name))
}

#[test]
fn new_video_is_unbound() {
    let v = video("a");
    assert_eq!(v.display_name, "a");
    assert_eq!(v.thumbnail_url, "https://img.example/a.jpg");
    assert_eq!(v.content_binding, None);
}

#[test]
fn new_collection_selects_the_first_place() {
    let c = Collection::new("Row".to_string(), vec![video("a"), video("b")]);
    assert_eq!(c.name, "Row");
    assert_eq!(c.videos.len(), 2);
    assert_eq!(c.selected_index, 0);
    assert!(c.fits(0));
}

#[test]
fn fit_checks_selection_and_bindings() {
    let mut c = Collection::new("Row".to_string(), vec![video("a"), video("b")]);
    c.selected_index = 1;
    assert!(c.fits(3));
    c.selected_index = 2;
    assert!(!c.fits(3));
    c.selected_index = 0;
    c.videos[1].content_binding = Some(2);
    assert!(c.fits(3));
    assert!(!c.fits(2));

    let mut empty = Collection::new("Empty".to_string(), Vec::new());
    assert!(empty.fits(0));
    empty.selected_index = 1;
    assert!(!empty.fits(0));

    let good = Collection::new("Good".to_string(), vec![video("x")]);
    assert!(catalog_is_fit(&vec![good.clone(), c.clone()], 3));
    assert!(!catalog_is_fit(&vec![good.clone(), c], 2));
    assert!(catalog_is_fit(&Vec::new(), 0));
}

#[test]
fn cycle_goes_round() {
    let mut cycle = ContentCycle::new(3);
    assert_eq!(cycle.registry_size(), 3);
    let got: Vec<Option<usize>> = (0..7).map(|_| cycle.next_index()).collect();
    assert_eq!(got, vec![Some(0), Some(1), Some(2), Some(0), Some(1), Some(2), Some(0)]);
}

#[test]
fn cycle_of_one_and_of_none() {
    let mut one = ContentCycle::new(1);
    assert_eq!(one.next_index(), Some(0));
    assert_eq!(one.next_index(), Some(0));
    let mut none = ContentCycle::new(0);
    assert_eq!(none.next_index(), None);
    assert_eq!(none.next_index(), None);
}
