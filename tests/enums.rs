use wyz::conv::Conv;
use wyz::pretty::{Prettify, Pretty};
use wyz::enums::{kind_name, pascal_to_snake, pattern, test_name, FieldShape, VariantDecl};

fn variant(name: &str, shape: FieldShape) -> VariantDecl {
    VariantDecl {
        name: name.to_string(),
        shape,
    }
}

#[test]
fn discern() {
    let variants = vec![
        variant("A", FieldShape::Unit),
        variant("B", FieldShape::Unnamed),
        variant("C", FieldShape::Named),
        variant("D", FieldShape::Unnamed),
    ];
    let d = wyz::enums::discern("Example", &variants);

    assert_eq!(d.tests[0], "is_a");
    assert_eq!(d.tests[1], "is_b");
    assert_eq!(d.tests[2], "is_c");
    assert_eq!(d.tests[3], "is_d");

    assert_eq!(d.kind_name, "ExampleVariant");
    assert_eq!(d.kinds, vec!["A", "B", "C", "D"]);
    assert_eq!(d.patterns, vec!["A", "B(..)", "C{..}", "D(..)"]);
}

#[test]
fn discern_empty_enum() {
    let d = wyz::enums::discern("Never", &Vec::new());
    assert_eq!(d.kind_name, "NeverVariant");
    assert!(d.tests.is_empty());
    assert!(d.kinds.is_empty());
    assert!(d.patterns.is_empty());
}

#[test]
fn pascal_to_snake_splits_words() {
    assert_eq!(pascal_to_snake("FooBar"), "_foo_bar");
    assert_eq!(pascal_to_snake("HTTPCode"), "_h_t_t_p_code");
    assert_eq!(pascal_to_snake("already_snake"), "already_snake");
    assert_eq!(pascal_to_snake(""), "");
    assert_eq!(pascal_to_snake("\u{c9}t\u{e9}"), "_\u{e9}t\u{e9}");
}

#[test]
fn test_names_have_one_underscore() {
    assert_eq!(test_name("OneTwo"), "is_one_two");
    assert_eq!(test_name("lower"), "is_lower");
    assert_eq!(test_name("_Hidden"), "is__hidden");
    assert_eq!(test_name(""), "is_");
}

#[test]
fn kind_names_and_patterns() {
    assert_eq!(kind_name("Shape"), "ShapeVariant");
    assert_eq!(pattern("Unit", FieldShape::Unit), "Unit");
    assert_eq!(pattern("Tuple", FieldShape::Unnamed), "Tuple(..)");
    assert_eq!(pattern("Record", FieldShape::Named), "Record{..}");
}

#[test]
fn conv_names_the_target() {
    let s = "static".conv::<String>();
    assert_eq!(s, "static");
    let n = 5u8.conv::<u32>();
    assert_eq!(n, 5);
}

#[derive(Debug, PartialEq)]
struct Label(u16);

impl Prettify for Label {}

#[test]
fn prettify_wraps_and_unwraps() {
    let p = Label(42).prettify();
    assert_eq!(p.into_inner(), Label(42));
    let q = Pretty::from("text");
    assert_eq!(q.into_inner(), "text");
}

#[test]
fn snake_from_uses_the_given_case_data() {
    let cs = vec!['A', 'b', 'C'];
    let upper = vec![true, false, true];
    let lower = vec![vec!['a'], vec![], vec!['c']];
    let r = wyz::enums::snake_from(&cs, &upper, &lower);
    assert_eq!(r, vec!['_', 'a', 'b', '_', 'c']);
    let upper2 = vec![false, false, false];
    assert_eq!(wyz::enums::snake_from(&cs, &upper2, &lower), vec!['A', 'b', 'C']);
    let lower3 = vec![vec!['x', 'y'], vec![], vec![]];
    assert_eq!(
        wyz::enums::snake_from(&cs, &vec![true, false, false], &lower3),
        vec!['_', 'x', 'y', 'b', 'C']
    );
}
