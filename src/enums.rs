//! Naming rules of the variant-inspection generator: from the declaration of
//! an enum, the names of its variant tests, of its fieldless sibling enum, and
//! the patterns that match each variant.
use vstd::prelude::*;

verus! {

/// Whether `c` has the Unicode `Uppercase` property, as std decides it.
pub uninterp spec fn uppercase_char(c: char) -> bool;

/// The lowercase mapping of `c`, as std computes it.
pub uninterp spec fn lowercase_chars(c: char) -> Seq<char>;

/// Relies on `char::is_uppercase`: the answer depends on the character alone.
#[verifier::external_body]
fn is_upper(c: char) -> (r: bool)
    ensures
        r == uppercase_char(c),
{
    c.is_uppercase()
}

/// Relies on `char::to_lowercase`: the characters depend on `c` alone.
#[verifier::external_body]
fn lower_of(c: char) -> (r: Vec<char>)
    ensures
        r@ == lowercase_chars(c),
{
    c.to_lowercase().collect()
}

/// The characters of `s`, in order.
fn chars_of(s: &str) -> (r: Vec<char>)
    ensures
        r@ == s@,
{
    let n = s.unicode_len();
    let mut out: Vec<char> = Vec::new();
    let mut i: usize = 0;
    while i < n
        invariant
            n == s@.len(),
            i <= n,
            out@ == s@.take(i as int),
        decreases n - i,
    {
        out.push(s.get_char(i));
        i += 1;
        assert(s@.take(i as int) == s@.take(i - 1) + seq![s@[i - 1]]);
    }
    assert(s@.take(n as int) == s@);
    out
}

/// Relies on `String::from_iter`: the string of the characters of `v`.
#[verifier::external_body]
fn string_of(v: &Vec<char>) -> (r: String)
    ensures
        r@ == v@,
{
    v.iter().collect()
}

/// The `_snake_case` form of the characters `cs`, given for each character
/// whether it is uppercase and what its lowercase form is: each uppercase
/// character becomes an underscore followed by its lowercase form, the others
/// stay.
pub open spec fn snake_with(cs: Seq<char>, upper: Seq<bool>, lower: Seq<Seq<char>>) -> Seq<char>
    decreases cs.len(),
{
    if cs.len() == 0 {
        Seq::empty()
    } else {
        let i = cs.len() - 1;
        snake_with(cs.drop_last(), upper.drop_last(), lower.drop_last()) + if upper[i] {
            seq!['_'] + lower[i]
        } else {
            seq![cs[i]]
        }
    }
}

/// A `PascalCase` name in `_snake_case`, with std's case tables.
pub open spec fn snake_of(s: Seq<char>) -> Seq<char> {
    snake_with(
        s,
        Seq::new(s.len(), |i: int| uppercase_char(s[i])),
        Seq::new(s.len(), |i: int| lowercase_chars(s[i])),
    )
}

/// The views of a sequence of character vectors.
pub open spec fn views_of(v: Seq<Vec<char>>) -> Seq<Seq<char>> {
    v.map_values(|l: Vec<char>| l@)
}

/// Appends the characters of `src` to `out`.
fn push_all(out: &mut Vec<char>, src: &Vec<char>)
    ensures
        final(out)@ == old(out)@ + src@,
{
    let ghost start = out@;
    let mut i: usize = 0;
    while i < src.len()
        invariant
            i <= src.len(),
            out@ == start + src@.take(i as int),
        decreases src.len() - i,
    {
        out.push(src[i]);
        i += 1;
        assert(src@.take(i as int) == src@.take(i - 1) + seq![src@[i - 1]]);
    }
    assert(src@.take(src.len() as int) == src@);
}

/// Translates the characters `cs` to `_snake_case`, given for each character
/// whether it is uppercase (`upper`) and its lowercase form (`lower`).
pub fn snake_from(cs: &Vec<char>, upper: &Vec<bool>, lower: &Vec<Vec<char>>) -> (r: Vec<char>)
    requires
        upper.len() == cs.len(),
        lower.len() == cs.len(),
    ensures
        r@ == snake_with(cs@, upper@, views_of(lower@)),
{
    let mut out: Vec<char> = Vec::new();
    let mut i: usize = 0;
    while i < cs.len()
        invariant
            i <= cs.len(),
            upper.len() == cs.len(),
            lower.len() == cs.len(),
            out@ == snake_with(
                cs@.take(i as int),
                upper@.take(i as int),
                views_of(lower@).take(i as int),
            ),
        decreases cs.len() - i,
    {
        if upper[i] {
            out.push('_');
            push_all(&mut out, &lower[i]);
        } else {
            out.push(cs[i]);
        }
        assert(cs@.take(i + 1).drop_last() == cs@.take(i as int));
        assert(upper@.take(i + 1).drop_last() == upper@.take(i as int));
        assert(views_of(lower@).take(i + 1).drop_last() == views_of(lower@).take(i as int));
        i += 1;
    }
    assert(cs@.take(cs.len() as int) == cs@);
    assert(upper@.take(cs.len() as int) == upper@);
    assert(views_of(lower@).take(cs.len() as int) == views_of(lower@));
    out
}

/// The characters of `text` translated to `_snake_case`.
fn snake_chars(text: &str) -> (r: Vec<char>)
    ensures
        r@ == snake_of(text@),
{
    let cs = chars_of(text);
    let mut upper: Vec<bool> = Vec::new();
    let mut lower: Vec<Vec<char>> = Vec::new();
    let mut i: usize = 0;
    while i < cs.len()
        invariant
            i <= cs.len(),
            cs@ == text@,
            upper.len() == i,
            lower.len() == i,
            forall|j: int| 0 <= j < i ==> upper@[j] == uppercase_char(cs@[j]),
            forall|j: int| 0 <= j < i ==> (#[trigger] lower@[j])@ == lowercase_chars(cs@[j]),
        decreases cs.len() - i,
    {
        upper.push(is_upper(cs[i]));
        lower.push(lower_of(cs[i]));
        i += 1;
    }
    assert(upper@ == Seq::new(text@.len(), |j: int| uppercase_char(text@[j])));
    assert(views_of(lower@) == Seq::new(text@.len(), |j: int| lowercase_chars(text@[j])));
    snake_from(&cs, &upper, &lower)
}

/// Translates a `PascalCase` name to `_snake_case`.
pub fn pascal_to_snake(text: &str) -> (r: String)
    ensures
        r@ == snake_of(text@),
{
    let out = snake_chars(text);
    string_of(&out)
}

/// How the fields of an enum variant are written.
#[derive(Clone, Copy, Debug, PartialEq, Eq, Structural)]
pub enum FieldShape {
    /// No fields: `A`.
    Unit,
    /// Positional fields: `B(i32)`.
    Unnamed,
    /// Named fields: `C { x: f32 }`.
    Named,
}

/// One variant of an enum declaration.
pub struct VariantDecl {
    pub name: String,
    pub shape: FieldShape,
}

/// What the generator derives from an enum declaration.
pub struct Discerned {
    /// The name of the fieldless sibling enum.
    pub kind_name: String,
    /// For each variant, the name of the method that tests for it.
    pub tests: Vec<String>,
    /// For each variant, the name of its fieldless sibling.
    pub kinds: Vec<String>,
    /// For each variant, the pattern that matches it whatever its fields.
    pub patterns: Vec<String>,
}

/// The name of the method that tests for the variant `name`: `is` and the
/// `_snake_case` name, with one underscore between them.
pub open spec fn test_name_of(name: Seq<char>) -> Seq<char> {
    let snake = snake_of(name);
    if snake.len() > 0 && snake[0] == '_' {
        seq!['i', 's'] + snake
    } else {
        seq!['i', 's', '_'] + snake
    }
}

/// The name of the fieldless sibling of the enum `name`.
pub open spec fn kind_name_of(name: Seq<char>) -> Seq<char> {
    name + seq!['V', 'a', 'r', 'i', 'a', 'n', 't']
}

/// The pattern that matches a variant of the given name and shape, ignoring
/// its fields.
pub open spec fn pattern_of(name: Seq<char>, shape: FieldShape) -> Seq<char> {
    match shape {
        FieldShape::Unit => name,
        FieldShape::Unnamed => name + seq!['(', '.', '.', ')'],
        FieldShape::Named => name + seq!['{', '.', '.', '}'],
    }
}

/// The name of the method that tests for the variant `name`.
pub fn test_name(name: &str) -> (r: String)
    ensures
        r@ == test_name_of(name@),
{
    let snake = snake_chars(name);
    let mut out: Vec<char> = vec!['i', 's'];
    if !(snake.len() > 0 && snake[0] == '_') {
        out.push('_');
    }
    push_all(&mut out, &snake);
    string_of(&out)
}

/// The name of the fieldless sibling of the enum `name`.
pub fn kind_name(name: &str) -> (r: String)
    ensures
        r@ == kind_name_of(name@),
{
    let mut out = chars_of(name);
    let suffix: Vec<char> = vec!['V', 'a', 'r', 'i', 'a', 'n', 't'];
    push_all(&mut out, &suffix);
    string_of(&out)
}

/// The pattern that matches a variant of the given name and shape.
pub fn pattern(name: &str, shape: FieldShape) -> (r: String)
    ensures
        r@ == pattern_of(name@, shape),
{
    let mut out = chars_of(name);
    let suffix: Vec<char> = match shape {
        FieldShape::Unit => Vec::new(),
        FieldShape::Unnamed => vec!['(', '.', '.', ')'],
        FieldShape::Named => vec!['{', '.', '.', '}'],
    };
    push_all(&mut out, &suffix);
    string_of(&out)
}

/// Derives, from the declaration of the enum `enum_name` with the given
/// variants, the names of the variant tests, the sibling enum and its
/// variants, and the pattern of each variant.
pub fn discern(enum_name: &str, variants: &Vec<VariantDecl>) -> (r: Discerned)
    ensures
        r.kind_name@ == kind_name_of(enum_name@),
        r.tests.len() == variants.len(),
        r.kinds.len() == variants.len(),
        r.patterns.len() == variants.len(),
        forall|i: int|
            0 <= i < variants.len() ==> (#[trigger] r.tests@[i])@ == test_name_of(
                variants@[i].name@,
            ),
        forall|i: int| 0 <= i < variants.len() ==> (#[trigger] r.kinds@[i])@ == variants@[i].name@,
        forall|i: int|
            0 <= i < variants.len() ==> (#[trigger] r.patterns@[i])@ == pattern_of(
                variants@[i].name@,
                variants@[i].shape,
            ),
{
    let mut tests: Vec<String> = Vec::new();
    let mut kinds: Vec<String> = Vec::new();
    let mut patterns: Vec<String> = Vec::new();
    let mut i: usize = 0;
    while i < variants.len()
        invariant
            i <= variants.len(),
            tests.len() == i,
            kinds.len() == i,
            patterns.len() == i,
            forall|j: int|
                0 <= j < i ==> (#[trigger] tests@[j])@ == test_name_of(variants@[j].name@),
            forall|j: int| 0 <= j < i ==> (#[trigger] kinds@[j])@ == variants@[j].name@,
            forall|j: int|
                0 <= j < i ==> (#[trigger] patterns@[j])@ == pattern_of(
                    variants@[j].name@,
                    variants@[j].shape,
                ),
        decreases variants.len() - i,
    {
        let v = &variants[i];
        tests.push(test_name(v.name.as_str()));
        kinds.push(v.name.clone());
        patterns.push(pattern(v.name.as_str(), v.shape));
        assert(tests@[i as int]@ == test_name_of(variants@[i as int].name@));
        assert(kinds@[i as int]@ == variants@[i as int].name@);
        i += 1;
    }
    Discerned { kind_name: kind_name(enum_name), tests, kinds, patterns }
}

} // verus!
