use menu_catalog::text::contains;

fn found(text: &str, needle: &str) -> bool {
    contains(&text.to_string(), &needle.to_string())
}

#[test]
fn contains_finds_a_run_of_characters() {
    assert!(found("Veg Pizza", "Pizza"));
    assert!(found("Veg Pizza", "Veg"));
    assert!(found("Veg Pizza", "g P"));
    assert!(found("Veg Pizza", "Veg Pizza"));
    assert!(!found("Veg Pizza", "Veg Pizzas"));
    assert!(!found("Veg Pizza", "VegPizza"));
    assert!(!found("Veg Pizza", "Pza"));
}

#[test]
fn contains_is_case_sensitive() {
    assert!(!found("Veg Pizza", "pizza"));
    assert!(!found("veg pizza", "Pizza"));
    assert!(found("veg pizza", "pizza"));
}

#[test]
fn contains_with_empty_text() {
    assert!(found("", ""));
    assert!(found("Soda", ""));
    assert!(!found("", "Soda"));
}

#[test]
fn contains_compares_whole_characters() {
    assert!(found("Crème brûlée", "è"));
    assert!(found("Crème brûlée", "ûl"));
    assert!(found("Crème brûlée", "e b"));
    assert!(!found("Crème brûlée", "é b"));
    assert!(!found("Creme", "è"));
}

#[test]
fn contains_does_not_hand_back_an_argument() {
    assert!(found("a", "a"));
    assert!(!found("a", "b"));
    assert!(!found("b", "a"));
}
