use rusttuts::shoes::{shoes_in_my_size, Shoe};

fn shoe(size: u32, style: &str) -> Shoe {
    Shoe { size, style: String::from(style) }
}

#[test]
fn filters_by_size_in_order() {
    let s1 = shoe(10, "sneaker");
    let s2 = shoe(13, "sandal");
    let s3 = shoe(10, "boot");
    let shoes = vec![&s1, &s2, &s3];
    let in_my_size = shoes_in_my_size(shoes, 10);
    assert_eq!(in_my_size, vec![&s1, &s3]);
    assert!(std::ptr::eq(in_my_size[0], &s1));
    assert!(std::ptr::eq(in_my_size[1], &s3));
}

#[test]
fn empty_input_gives_empty_output() {
    let shoes: Vec<&Shoe> = Vec::new();
    assert!(shoes_in_my_size(shoes, 10).is_empty());
}

#[test]
fn no_match_gives_empty_output() {
    let s1 = shoe(10, "sneaker");
    let s2 = shoe(13, "sandal");
    assert!(shoes_in_my_size(vec![&s1, &s2], 11).is_empty());
}

#[test]
fn all_match_keeps_everything() {
    let s1 = shoe(13, "sandal");
    let s2 = shoe(13, "boot");
    let s3 = shoe(13, "sandal");
    let r = shoes_in_my_size(vec![&s1, &s2, &s3], 13);
    assert_eq!(r.len(), 3);
    assert!(std::ptr::eq(r[0], &s1));
    assert!(std::ptr::eq(r[1], &s2));
    assert!(std::ptr::eq(r[2], &s3));
}

#[test]
fn largest_size_is_matched() {
    let s1 = shoe(u32::MAX, "giant");
    let s2 = shoe(0, "tiny");
    let r = shoes_in_my_size(vec![&s1, &s2], u32::MAX);
    assert_eq!(r, vec![&s1]);
}
