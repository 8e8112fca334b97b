use loose_enum::table::{LooseEnum, Tag};
use std::hash::{Hash, Hasher};

// enum StringEnum: String { Foo = "Foo", Bar = "Bar", None = "" }
const FOO: usize = 0;
const BAR: usize = 1;
const NONE: usize = 2;

fn string_enum() -> LooseEnum<String> {
    LooseEnum::new(vec!["Foo".to_string(), "Bar".to_string(), String::default()])
}

// enum IntEnum: u8 { Zero = 0 }
const ZERO: usize = 0;

fn int_enum() -> LooseEnum<u8> {
    LooseEnum::new(vec![0])
}

#[test]
fn string_to_enum() {
    let e = string_enum();
    assert_eq!(e.from_repr("Foo".to_string()), Tag::Named(FOO));
    assert_eq!(e.from_str("Bar"), Tag::Named(BAR));
    assert_eq!(e.from_str(""), Tag::Named(NONE));

    assert_eq!(
        e.from_str("Other"),
        Tag::Undefined("Other".to_string())
    );
}

#[test]
fn enum_to_string() {
    let e = string_enum();
    assert_eq!(e.to_repr(Tag::Named(FOO)), "Foo".to_string());
    assert_eq!(e.to_repr(Tag::Named(BAR)), "Bar".to_string());
    assert_eq!(e.to_repr(Tag::Named(NONE)), "".to_string());

    assert_eq!(
        e.to_repr(Tag::Undefined("Other".to_string())),
        "Other".to_string()
    );
}

#[test]
fn int_to_enum() {
    let e = int_enum();
    assert_eq!(e.from_repr(0), Tag::Named(ZERO));

    assert_eq!(e.from_repr(123), Tag::Undefined(123));
}

#[test]
fn enum_to_int() {
    let e = int_enum();
    assert_eq!(e.to_repr(Tag::Named(ZERO)), 0);

    assert_eq!(e.to_repr(Tag::Undefined(123)), 123);
}

// enum Fruit: String { Apple = "Apple", Banana = "Banana", Empty = "" }
const APPLE: usize = 0;
const BANANA: usize = 1;
const EMPTY: usize = 2;

fn fruit() -> LooseEnum<String> {
    LooseEnum::new(vec!["Apple".to_string(), "Banana".to_string(), String::new()])
}

// enum Flag: i8 { False = 0, True = 1 }
fn flag() -> LooseEnum<i8> {
    LooseEnum::new(vec![0, 1])
}

#[test]
fn empty_text_is_a_named_value() {
    let e = fruit();
    assert_eq!(e.from_str(""), Tag::Named(EMPTY));
    assert_eq!(e.from_repr(String::new()), Tag::Named(EMPTY));
    assert_eq!(e.from_str("Apple"), Tag::Named(APPLE));
    assert_eq!(e.from_str("Banana"), Tag::Named(BANANA));
    assert_eq!(e.to_repr(Tag::Named(EMPTY)), "");
}

#[test]
fn text_is_matched_exactly() {
    let e = fruit();
    assert_eq!(e.from_str("apple"), Tag::Undefined("apple".to_string()));
    assert_eq!(e.from_str("Apple "), Tag::Undefined("Apple ".to_string()));
    assert_eq!(e.from_str(" "), Tag::Undefined(" ".to_string()));
    assert_eq!(e.from_str("Appl"), Tag::Undefined("Appl".to_string()));
    assert_eq!(e.from_str("Bananas"), Tag::Undefined("Bananas".to_string()));
    assert_eq!(e.from_str("Äpple"), Tag::Undefined("Äpple".to_string()));
}

#[test]
fn borrowed_and_owned_text_agree() {
    let e = fruit();
    for text in ["Apple", "Banana", "", "Cherry", "apple"] {
        assert_eq!(e.from_str(text), e.from_repr(text.to_string()));
    }
}

#[test]
fn signed_values_outside_the_declaration_are_kept() {
    let e = flag();
    assert_eq!(e.from_repr(-5), Tag::Undefined(-5));
    assert_eq!(e.to_repr(Tag::Undefined(-5)), -5);
    assert_eq!(e.from_repr(1), Tag::Named(1));
    assert_eq!(e.from_repr(0), Tag::Named(0));
}

#[test]
fn round_trip_over_every_value() {
    let e = LooseEnum::new(vec![3u8, 200, 0]);
    for value in u8::MIN..=u8::MAX {
        assert_eq!(e.to_repr(e.from_repr(value)), value);
    }
    let e = fruit();
    for text in ["Apple", "Banana", "", "Cherry", "apple"] {
        assert_eq!(e.to_repr(e.from_str(text)), text);
    }
}

#[test]
fn named_values_keep_their_tags() {
    let values = vec![3u32, 200, 0, 77];
    let e = LooseEnum::new(values.clone());
    assert!(e.has_distinct_values());
    for (position, value) in values.into_iter().enumerate() {
        assert_eq!(e.from_repr(value), Tag::Named(position));
        assert_eq!(e.to_repr(Tag::Named(position)), value);
    }
}

#[test]
fn unnamed_values_are_kept_exactly() {
    let e = LooseEnum::new(vec![3u8, 200, 0]);
    for value in u8::MIN..=u8::MAX {
        if value != 3 && value != 200 && value != 0 {
            assert_eq!(e.from_repr(value), Tag::Undefined(value));
        }
    }
    assert_eq!(e.from_repr(3), Tag::Named(0));
    assert_eq!(e.from_repr(200), Tag::Named(1));
    assert_eq!(e.from_repr(0), Tag::Named(2));
}

#[test]
fn first_declared_value_wins() {
    let e = LooseEnum::new(vec![5i64, 9, 5]);
    assert!(!e.has_distinct_values());
    assert_eq!(e.from_repr(5), Tag::Named(0));
    assert_eq!(e.from_repr(9), Tag::Named(1));
    assert_eq!(e.to_repr(Tag::Named(2)), 5);
    // The second variant declared with 5 does not come back from its value.
    assert_eq!(e.from_repr(e.to_repr(Tag::Named(2))), Tag::Named(0));
}

#[test]
fn distinct_values_are_told_from_repeated_ones() {
    assert!(LooseEnum::<u8>::new(vec![]).has_distinct_values());
    assert!(LooseEnum::new(vec![1u8]).has_distinct_values());
    assert!(LooseEnum::new(vec![1u8, 2, 3]).has_distinct_values());
    assert!(!LooseEnum::new(vec![1u8, 1]).has_distinct_values());
    assert!(!LooseEnum::new(vec![1u8, 2, 3, 1]).has_distinct_values());
    assert!(!LooseEnum::new(vec![1u8, 2, 3, 3]).has_distinct_values());
    assert!(fruit().has_distinct_values());
    assert!(!LooseEnum::new(vec!["a".to_string(), "b".to_string(), "a".to_string()])
        .has_distinct_values());
}

#[test]
fn tags_survive_their_representation() {
    let e = LooseEnum::new(vec![10u16, 20, 30]);
    for tag in [Tag::Named(0), Tag::Named(1), Tag::Named(2), Tag::Undefined(0), Tag::Undefined(11)] {
        assert_eq!(e.from_repr(e.to_repr(tag.clone())), tag);
    }
    // A catch-all that keeps a named value comes back as the named variant.
    assert_eq!(e.from_repr(e.to_repr(Tag::Undefined(20))), Tag::Named(1));

    let e = int_enum();
    assert_eq!(e.from_repr(e.to_repr(Tag::Undefined(0))), Tag::Named(ZERO));
}

#[test]
fn catch_all_is_never_a_named_variant() {
    assert_ne!(Tag::Undefined(0usize), Tag::Named(0));
    assert_ne!(Tag::<u8>::Named(0), Tag::Named(1));
    assert_eq!(Tag::<u8>::Named(1), Tag::Named(1));
    assert_eq!(Tag::Undefined(4u8), Tag::Undefined(4));
    assert_ne!(Tag::Undefined(4u8), Tag::Undefined(5));
    assert_ne!(
        Tag::Undefined("a".to_string()),
        Tag::Undefined("A".to_string())
    );
}

#[test]
fn empty_declaration_keeps_everything() {
    let e: LooseEnum<u64> = LooseEnum::new(Vec::new());
    assert_eq!(e.len(), 0);
    assert_eq!(e.from_repr(0), Tag::Undefined(0));
    assert_eq!(e.from_repr(u64::MAX), Tag::Undefined(u64::MAX));
    assert_eq!(e.to_repr(Tag::Undefined(9)), 9);
}

#[test]
fn len_counts_the_named_variants() {
    assert_eq!(string_enum().len(), 3);
    assert_eq!(int_enum().len(), 1);
    assert_eq!(flag().len(), 2);
}

#[test]
fn every_integer_type_can_be_declared() {
    assert_eq!(LooseEnum::new(vec![7u8]).from_repr(7), Tag::Named(0));
    assert_eq!(LooseEnum::new(vec![7u16]).from_repr(7), Tag::Named(0));
    assert_eq!(LooseEnum::new(vec![7u32]).from_repr(7), Tag::Named(0));
    assert_eq!(LooseEnum::new(vec![7u64]).from_repr(7), Tag::Named(0));
    assert_eq!(LooseEnum::new(vec![7u128]).from_repr(7), Tag::Named(0));
    assert_eq!(LooseEnum::new(vec![7usize]).from_repr(7), Tag::Named(0));
    assert_eq!(LooseEnum::new(vec![-7i8]).from_repr(-7), Tag::Named(0));
    assert_eq!(LooseEnum::new(vec![-7i16]).from_repr(-7), Tag::Named(0));
    assert_eq!(LooseEnum::new(vec![-7i32]).from_repr(-7), Tag::Named(0));
    assert_eq!(LooseEnum::new(vec![-7i64]).from_repr(-7), Tag::Named(0));
    assert_eq!(LooseEnum::new(vec![-7i128]).from_repr(-7), Tag::Named(0));
    assert_eq!(LooseEnum::new(vec![-7isize]).from_repr(-7), Tag::Named(0));
    assert_eq!(LooseEnum::new(vec![-7i8]).from_repr(7), Tag::Undefined(7));
    assert_eq!(LooseEnum::new(vec![7u128]).to_repr(Tag::Named(0)), 7);
    assert_eq!(LooseEnum::new(vec![i64::MIN]).to_repr(Tag::Named(0)), i64::MIN);
}

#[test]
fn cloned_tags_are_equal() {
    let tag = Tag::Undefined("Other".to_string());
    assert_eq!(tag.clone(), tag);
    let tag: Tag<String> = Tag::Named(1);
    assert_eq!(tag.clone(), tag);
}

#[test]
fn tags_of_another_declaration_are_told_apart() {
    let e = LooseEnum::new(vec![10u16, 20, 30]);
    assert!(e.admits(&Tag::Named(0)));
    assert!(e.admits(&Tag::Named(2)));
    assert!(!e.admits(&Tag::Named(3)));
    assert!(!e.admits(&Tag::Named(usize::MAX)));
    assert!(e.admits(&Tag::Undefined(10)));
    assert!(e.admits(&Tag::Undefined(11)));
    assert!(!LooseEnum::<u8>::new(vec![]).admits(&Tag::Named(0)));
}

#[test]
fn borrowed_representation_is_the_owned_one() {
    let e = fruit();
    for tag in [Tag::Named(APPLE), Tag::Named(BANANA), Tag::Named(EMPTY), Tag::Undefined("Cherry".to_string())] {
        assert_eq!(*e.as_repr(&tag), e.to_repr(tag.clone()));
    }
    assert_eq!(e.as_repr(&Tag::Named(BANANA)), "Banana");
    assert_eq!(e.as_repr(&Tag::Undefined("Cherry".to_string())), "Cherry");
    assert_eq!(*int_enum().as_repr(&Tag::Undefined(123)), 123);
    assert_eq!(*int_enum().as_repr(&Tag::Named(ZERO)), 0);
}

fn hash_of<T: Hash>(value: &T) -> u64 {
    let mut hasher = std::collections::hash_map::DefaultHasher::new();
    value.hash(&mut hasher);
    hasher.finish()
}

#[test]
fn equal_tags_hash_alike() {
    assert_eq!(hash_of(&Tag::<u8>::Named(1)), hash_of(&Tag::<u8>::Named(1)));
    assert_eq!(hash_of(&Tag::Undefined(4u8)), hash_of(&Tag::Undefined(4u8)));
    assert_eq!(
        hash_of(&Tag::Undefined("Other".to_string())),
        hash_of(&Tag::Undefined("Other".to_string()).clone())
    );
    assert_ne!(hash_of(&Tag::Undefined(0usize)), hash_of(&Tag::<usize>::Named(0)));
}
