use portcullis::catalog::catalog_is_fit;
use portcullis::loader::{
    handle_item, load_catalog, read_plan, read_plans, read_referenced, read_videos, CatalogError,
    CatalogLoader, CatalogRequest, LoadStep, SetPlan,
};
use portcullis::ratio::Ratio;

const SCREEN: Ratio = Ratio { millionths: 750_000 };

fn title(kind: &str, text: &str) -> String {
    format!(
        r#""text":{{"title":{{"full":{{"{}":{{"default":{{"content":"{}"}}}}}}}}}}"#,
        kind, text
    )
}

fn item(item_type: &str, kind: &str, name: &str, tiles: &str) -> String {
    format!(
        r#"{{"type":"{}",{},"image":{{"tile":{}}}}}"#,
        item_type,
        title(kind, name),
        tiles
    )
}

fn tiles(kind: &str, name: &str) -> String {
    format!(
        r#"{{"1.78":{{"{k}":{{"default":{{"url":"https://img/{n}/wide"}}}}}},"0.71":{{"{k}":{{"default":{{"url":"https://img/{n}/tall"}}}}}}}}"#,
        k = kind,
        n = name
    )
}

fn program(name: &str) -> String {
    item("DmcVideo", "program", name, &tiles("program", name))
}

fn curated(name: &str, items: &[String]) -> String {
    format!(
        r#"{{"set":{{"type":"CuratedSet",{},"items":[{}]}}}}"#,
        title("set", name),
        items.join(",")
    )
}

fn referenced(name: &str, ref_id: &str) -> String {
    format!(r#"{{"set":{{"type":"SetRef","refId":"{}",{}}}}}"#, ref_id, title("set", name))
}

fn home(containers: &[String]) -> String {
    format!(
        r#"{{"data":{{"StandardCollection":{{"containers":[{}]}}}}}}"#,
        containers.join(",")
    )
}

fn set_document(key: &str, items: &[String]) -> String {
    format!(r#"{{"data":{{"{}":{{"items":[{}]}}}}}}"#, key, items.join(","))
}

fn value(text: &str) -> serde_json::Value {
    serde_json::from_str(text).unwrap()
}

fn start() -> CatalogLoader {
    match load_catalog(SCREEN) {
        LoadStep::Fetch(CatalogRequest::Home, loader) => loader,
        other => panic!("expected the home document to be asked for, got {:?}", other),
    }
}

fn names(step: &LoadStep) -> Vec<(String, Vec<String>)> {
    match step {
        LoadStep::Done(rows) => rows
            .iter()
            .map(|row| {
                (row.name.clone(), row.videos.iter().map(|v| v.display_name.clone()).collect())
            })
            .collect(),
        other => panic!("expected a catalog, got {:?}", other),
    }
}

#[test]
fn the_home_document_is_asked_for_first() {
    assert!(matches!(load_catalog(SCREEN), LoadStep::Fetch(CatalogRequest::Home, _)));
}

#[test]
fn item_is_read_with_the_closest_variant() {
    let doc = value(&program("Movie"));
    let video = handle_item(&doc, SCREEN).unwrap();
    assert_eq!(video.display_name, "Movie");
    // 0.71 is 0.04 from 0.75; 1.78 is 1.03 from it.
    assert_eq!(video.thumbnail_url, "https://img/Movie/tall");
    assert_eq!(video.content_binding, None);
    let wide = handle_item(&doc, Ratio { millionths: 1_500_000 }).unwrap();
    assert_eq!(wide.thumbnail_url, "https://img/Movie/wide");
}

#[test]
fn item_types_have_their_own_names() {
    for (item_type, kind) in
        [("DmcSeries", "series"), ("DmcVideo", "program"), ("StandardCollection", "collection")]
    {
        let doc = value(&item(item_type, kind, "Name", &tiles(kind, "Name")));
        let video = handle_item(&doc, SCREEN).unwrap();
        assert_eq!(video.display_name, "Name");
        assert_eq!(video.thumbnail_url, "https://img/Name/tall");
    }
    // A title filed under the name of another type is not found.
    let doc = value(&item("DmcSeries", "program", "Name", &tiles("series", "Name")));
    assert!(handle_item(&doc, SCREEN).is_none());
    // An unknown type is an error.
    let doc = value(&item("DmcTrailer", "program", "Name", &tiles("program", "Name")));
    assert!(handle_item(&doc, SCREEN).is_none());
}

#[test]
fn variant_falls_back_to_the_default_image() {
    let tiles = r#"{"0.75":{"default":{"default":{"url":"https://img/fallback"}}}}"#;
    let doc = value(&item("DmcVideo", "program", "Movie", tiles));
    assert_eq!(handle_item(&doc, SCREEN).unwrap().thumbnail_url, "https://img/fallback");
    // Where both are there, the image of the item's own kind wins.
    let tiles = r#"{"0.75":{"default":{"default":{"url":"https://img/fallback"}},"program":{"default":{"url":"https://img/own"}}}}"#;
    let doc = value(&item("DmcVideo", "program", "Movie", tiles));
    assert_eq!(handle_item(&doc, SCREEN).unwrap().thumbnail_url, "https://img/own");
    // The image of its own kind is there but has no URL: no fallback then.
    let tiles = r#"{"0.75":{"default":{"default":{"url":"https://img/fallback"}},"program":{"default":{}}}}"#;
    let doc = value(&item("DmcVideo", "program", "Movie", tiles));
    assert!(handle_item(&doc, SCREEN).is_none());
}

#[test]
fn equally_close_variants() {
    let tiles = r#"{"0.50":{"program":{"default":{"url":"https://img/half"}}},"1.00":{"program":{"default":{"url":"https://img/one"}}}}"#;
    let doc = value(&item("DmcVideo", "program", "Movie", tiles));
    let first = handle_item(&doc, SCREEN).unwrap().thumbnail_url;
    // Both are 0.25 away. Which of them the document lists first is up to
    // the reader of the document; the choice is the same every time.
    assert!(first == "https://img/half" || first == "https://img/one");
    for _ in 0..5 {
        assert_eq!(handle_item(&doc, SCREEN).unwrap().thumbnail_url, first);
    }
}

#[test]
fn malformed_items_are_errors() {
    let good = program("Movie");
    assert!(handle_item(&value(&good), SCREEN).is_some());
    for bad in [
        // No type, or a type that is no string.
        good.replace(r#""type":"DmcVideo","#, ""),
        good.replace(r#""type":"DmcVideo""#, r#""type":7"#),
        // No title, or a title that is no string.
        good.replace(r#""content":"Movie""#, r#""content":null"#),
        good.replace(r#""content":"Movie""#, r#""contents":"Movie""#),
        // No tiles, tiles that are no object, or no tile at all.
        good.replace(r#""tile""#, r#""tiles""#),
        item("DmcVideo", "program", "Movie", "[]"),
        item("DmcVideo", "program", "Movie", "{}"),
        // A tile whose key is no ratio.
        good.replace("1.78", "wide"),
        good.replace("0.71", "0.71:1"),
        // A URL that is no string.
        good.replace(r#""url":"https://img/Movie/tall""#, r#""url":17"#),
        // The closest variant is no object.
        item("DmcVideo", "program", "Movie", r#"{"0.75":"https://img/x"}"#),
        "[]".to_string(),
        "null".to_string(),
    ] {
        assert!(handle_item(&value(&bad), SCREEN).is_none(), "{}", bad);
    }
    // What is wrong with a variant that is not chosen does not matter.
    let other = good.replace(r#""url":"https://img/Movie/wide""#, r#""url":17"#);
    assert_eq!(handle_item(&value(&other), SCREEN).unwrap().thumbnail_url, "https://img/Movie/tall");
}

#[test]
fn videos_are_read_in_order_or_not_at_all() {
    let list = value(&format!("[{},{},{}]", program("A"), program("B"), program("C")));
    let videos = read_videos(list.as_array().unwrap(), SCREEN).unwrap();
    let names: Vec<&str> = videos.iter().map(|v| v.display_name.as_str()).collect();
    assert_eq!(names, vec!["A", "B", "C"]);
    let list = value(&format!("[{},{},{}]", program("A"), "{}", program("C")));
    assert!(read_videos(list.as_array().unwrap(), SCREEN).is_none());
    assert_eq!(read_videos(&Vec::new(), SCREEN).unwrap().len(), 0);
}

#[test]
fn containers_are_curated_or_referenced() {
    let plan = read_plan(&value(&curated("New", &[program("A"), program("B")])), SCREEN).unwrap();
    match plan {
        SetPlan::Curated(row) => {
            assert_eq!(row.name, "New");
            assert_eq!(row.videos.len(), 2);
            assert_eq!(row.selected_index, 0);
        }
        other => panic!("expected a curated row, got {:?}", other),
    }
    let plan = read_plan(&value(&referenced("Trending", "abc-123")), SCREEN).unwrap();
    match plan {
        SetPlan::Referenced { name, ref_id } => {
            assert_eq!(name, "Trending");
            assert_eq!(ref_id, "abc-123");
        }
        other => panic!("expected a reference, got {:?}", other),
    }
    for bad in [
        "{}".to_string(),
        r#"{"set":{}}"#.to_string(),
        curated("New", &[program("A")]).replace(r#""items""#, r#""item""#),
        curated("New", &[program("A")]).replace(r#""type":"CuratedSet","#, ""),
        // With the items of a curated set but the type of another, the
        // reference is missing.
        curated("New", &[program("A")]).replace("CuratedSet", "SetRef"),
        referenced("Trending", "abc").replace(r#""refId":"abc""#, r#""refId":5"#),
        referenced("Trending", "abc").replace(r#""content":"Trending""#, r#""content":[]"#),
    ] {
        assert!(read_plan(&value(&bad), SCREEN).is_none(), "{}", bad);
    }
}

#[test]
fn home_document_is_read_strictly() {
    let doc = home(&[curated("New", &[program("A")]), referenced("Trending", "t-1")]);
    assert_eq!(read_plans(&value(&doc), SCREEN).unwrap().len(), 2);
    assert_eq!(read_plans(&value(&home(&[])), SCREEN).unwrap().len(), 0);
    for bad in [
        "{}".to_string(),
        r#"{"data":{}}"#.to_string(),
        r#"{"data":{"StandardCollection":{}}}"#.to_string(),
        r#"{"data":{"StandardCollection":{"containers":{}}}}"#.to_string(),
        r#"{"data":{"StandardCollection":{"containers":null}}}"#.to_string(),
        home(&[curated("New", &[program("A")]), "{}".to_string()]),
    ] {
        assert!(read_plans(&value(&bad), SCREEN).is_none(), "{}", bad);
    }
}

#[test]
fn referenced_set_is_the_first_member_of_data() {
    let doc = set_document("TrendingSet", &[program("T1"), program("T2")]);
    let videos = read_referenced(&value(&doc), SCREEN).unwrap();
    assert_eq!(videos.len(), 2);
    assert_eq!(videos[1].display_name, "T2");
    for bad in [
        "{}".to_string(),
        r#"{"data":[]}"#.to_string(),
        r#"{"data":{}}"#.to_string(),
        r#"{"data":{"TrendingSet":{}}}"#.to_string(),
        r#"{"data":{"TrendingSet":{"items":{}}}}"#.to_string(),
        set_document("TrendingSet", &["{}".to_string()]),
    ] {
        assert!(read_referenced(&value(&bad), SCREEN).is_none(), "{}", bad);
    }
}

#[test]
fn catalog_of_curated_rows_needs_one_document() {
    let doc = home(&[curated("New", &[program("A"), program("B")]), curated("Old", &[program("C")])]);
    let step = start().answer(Some(&doc));
    assert_eq!(
        names(&step),
        vec![
            ("New".to_string(), vec!["A".to_string(), "B".to_string()]),
            ("Old".to_string(), vec!["C".to_string()])
        ]
    );
    if let LoadStep::Done(rows) = step {
        assert!(catalog_is_fit(&rows, 0));
        assert!(catalog_is_fit(&rows, 21));
    }
}

#[test]
fn referenced_rows_are_fetched_in_order() {
    let doc = home(&[
        curated("First", &[program("A")]),
        referenced("Second", "ref-2"),
        curated("Third", &[program("C")]),
        referenced("Fourth", "ref-4"),
    ]);
    let loader = match start().answer(Some(&doc)) {
        LoadStep::Fetch(CatalogRequest::Referenced(id), loader) => {
            assert_eq!(id, "ref-2");
            loader
        }
        other => panic!("expected a request, got {:?}", other),
    };
    let second = set_document("AnySet", &[program("B1"), program("B2")]);
    let loader = match loader.answer(Some(&second)) {
        LoadStep::Fetch(CatalogRequest::Referenced(id), loader) => {
            assert_eq!(id, "ref-4");
            loader
        }
        other => panic!("expected a request, got {:?}", other),
    };
    let fourth = set_document("AnySet", &[]);
    let step = loader.answer(Some(&fourth));
    assert_eq!(
        names(&step),
        vec![
            ("First".to_string(), vec!["A".to_string()]),
            ("Second".to_string(), vec!["B1".to_string(), "B2".to_string()]),
            ("Third".to_string(), vec!["C".to_string()]),
            ("Fourth".to_string(), vec![]),
        ]
    );
}

#[test]
fn empty_home_document_gives_an_empty_catalog() {
    let step = start().answer(Some(&home(&[])));
    assert_eq!(names(&step), Vec::new());
}

#[test]
fn failed_fetch_ends_the_load() {
    assert!(matches!(start().answer(None), LoadStep::Failed(CatalogError::Fetch)));
    let doc = home(&[referenced("Second", "ref-2")]);
    match start().answer(Some(&doc)) {
        LoadStep::Fetch(_, loader) => {
            assert!(matches!(loader.answer(None), LoadStep::Failed(CatalogError::Fetch)));
        }
        other => panic!("expected a request, got {:?}", other),
    }
}

#[test]
fn bad_documents_end_the_load() {
    for bad in ["", "not json", "{", r#"{"data":1}"#, "[1,2,3]", r#"{"a":1} trailing"#] {
        assert!(
            matches!(start().answer(Some(bad)), LoadStep::Failed(CatalogError::Format)),
            "{:?}",
            bad
        );
    }
    let doc = home(&[referenced("Second", "ref-2")]);
    for bad in ["", "[]", r#"{"data":{}}"#] {
        match start().answer(Some(&doc)) {
            LoadStep::Fetch(_, loader) => {
                assert!(matches!(
                    loader.answer(Some(bad)),
                    LoadStep::Failed(CatalogError::Format)
                ));
            }
            other => panic!("expected a request, got {:?}", other),
        }
    }
}

#[test]
fn supply_takes_a_document_that_is_already_read() {
    let doc = value(&home(&[curated("New", &[program("A")])]));
    let step = start().supply(&doc);
    assert_eq!(names(&step), vec![("New".to_string(), vec!["A".to_string()])]);
    assert!(matches!(start().supply(&value("[]")), LoadStep::Failed(CatalogError::Format)));
}

#[test]
fn text_is_taken_as_it_is() {
    // Escapes are resolved by the reader of the document; the title is the
    // text itself, without quotes.
    let doc = value(&program(r#"Café \"Olé\""#));
    assert_eq!(handle_item(&doc, SCREEN).unwrap().display_name, "Café \"Olé\"");
}
