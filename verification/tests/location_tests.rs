use swampqueen_core::location::Location;

fn testplace() -> Location {
    Location {
        id: String::from("testplace"),
        name: String::from("Test Place"),
        text: vec![
            (
                String::from("intro"),
                vec![
                    String::from("You awake in a rusty laboratory."),
                    String::from("\"This is a test,\" the loudspeaker barked."),
                    String::from("What would you like to do now?"),
                ],
            ),
            (String::from("outro"), vec![String::from("You leave.")]),
        ],
    }
}

#[test]
fn paragraph_by_key_and_index() {
    let place = testplace();
    assert_eq!(
        place.paragraph("intro", 0).unwrap(),
        "You awake in a rusty laboratory."
    );
    assert_eq!(
        place.paragraph("intro", 1).unwrap(),
        "\"This is a test,\" the loudspeaker barked."
    );
    assert_eq!(
        place.paragraph("intro", 2).unwrap(),
        "What would you like to do now?"
    );
    assert_eq!(place.paragraph("outro", 0).unwrap(), "You leave.");
}

#[test]
fn paragraph_misses() {
    let place = testplace();
    assert!(place.paragraph("intro", 3).is_none());
    assert!(place.paragraph("missing", 0).is_none());
    assert!(place.paragraph("", 0).is_none());
}

#[test]
fn location_fields() {
    let place = testplace();
    assert_eq!(place.id, "testplace");
    assert_eq!(place.name, "Test Place");
}
