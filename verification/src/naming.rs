//! The naming-convention engine: pure transforms between identifier casing
//! styles, applied to field and variant names when a renaming rule is
//! declared on a composite type.
//!
//! Case conversion acts on the ASCII letters; every other character passes
//! through unchanged.

use vstd::prelude::*;

verus! {

/// An identifier-casing rule. A rule is a pure function from a name to a
/// name; it has no state and no dependency on context beyond the rule kind
/// and the detected source casing of the input.
#[derive(Debug, Clone, Copy, PartialEq, Eq)]
pub enum NamingRule {
    /// Leave the name unchanged.
    Identity,
    /// Lower-case every ASCII letter, unconditionally.
    Lowercase,
    /// Upper-case every ASCII letter, unconditionally.
    Uppercase,
    /// `PascalCase`: capitalize each underscore-separated segment.
    PascalCase,
    /// `camelCase`: first segment lower-cased, later segments capitalized.
    CamelCase,
    /// `snake_case`: separate word boundaries with `_`, lower-cased.
    SnakeCase,
    /// `SCREAMING_SNAKE_CASE`: separate word boundaries with `_`, upper-cased.
    ScreamingSnakeCase,
    /// `kebab-case`: separate word boundaries with `-`, lower-cased.
    KebabCase,
}

/// Whether `c` is an ASCII upper-case letter.
pub open spec fn is_ascii_upper(c: char) -> bool {
    'A' <= c && c <= 'Z'
}

/// The lower-case counterpart of an ASCII letter; any other character is
/// returned unchanged.
pub open spec fn lower_char(c: char) -> char {
    match c {
        'A' => 'a',
        'B' => 'b',
        'C' => 'c',
        'D' => 'd',
        'E' => 'e',
        'F' => 'f',
        'G' => 'g',
        'H' => 'h',
        'I' => 'i',
        'J' => 'j',
        'K' => 'k',
        'L' => 'l',
        'M' => 'm',
        'N' => 'n',
        'O' => 'o',
        'P' => 'p',
        'Q' => 'q',
        'R' => 'r',
        'S' => 's',
        'T' => 't',
        'U' => 'u',
        'V' => 'v',
        'W' => 'w',
        'X' => 'x',
        'Y' => 'y',
        'Z' => 'z',
        _ => c,
    }
}

/// The upper-case counterpart of an ASCII letter; any other character is
/// returned unchanged.
pub open spec fn upper_char(c: char) -> char {
    match c {
        'a' => 'A',
        'b' => 'B',
        'c' => 'C',
        'd' => 'D',
        'e' => 'E',
        'f' => 'F',
        'g' => 'G',
        'h' => 'H',
        'i' => 'I',
        'j' => 'J',
        'k' => 'K',
        'l' => 'L',
        'm' => 'M',
        'n' => 'N',
        'o' => 'O',
        'p' => 'P',
        'q' => 'Q',
        'r' => 'R',
        's' => 'S',
        't' => 'T',
        'u' => 'U',
        'v' => 'V',
        'w' => 'W',
        'x' => 'X',
        'y' => 'Y',
        'z' => 'Z',
        _ => c,
    }
}

/// Exec counterpart of [`lower_char`].
fn to_lower(c: char) -> (r: char)
    ensures
        r == lower_char(c),
{
    match c {
        'A' => 'a',
        'B' => 'b',
        'C' => 'c',
        'D' => 'd',
        'E' => 'e',
        'F' => 'f',
        'G' => 'g',
        'H' => 'h',
        'I' => 'i',
        'J' => 'j',
        'K' => 'k',
        'L' => 'l',
        'M' => 'm',
        'N' => 'n',
        'O' => 'o',
        'P' => 'p',
        'Q' => 'q',
        'R' => 'r',
        'S' => 's',
        'T' => 't',
        'U' => 'u',
        'V' => 'v',
        'W' => 'w',
        'X' => 'x',
        'Y' => 'y',
        'Z' => 'z',
        _ => c,
    }
}

/// Exec counterpart of [`upper_char`].
fn to_upper(c: char) -> (r: char)
    ensures
        r == upper_char(c),
{
    match c {
        'a' => 'A',
        'b' => 'B',
        'c' => 'C',
        'd' => 'D',
        'e' => 'E',
        'f' => 'F',
        'g' => 'G',
        'h' => 'H',
        'i' => 'I',
        'j' => 'J',
        'k' => 'K',
        'l' => 'L',
        'm' => 'M',
        'n' => 'N',
        'o' => 'O',
        'p' => 'P',
        'q' => 'Q',
        'r' => 'R',
        's' => 'S',
        't' => 'T',
        'u' => 'U',
        'v' => 'V',
        'w' => 'W',
        'x' => 'X',
        'y' => 'Y',
        'z' => 'Z',
        _ => c,
    }
}

/// Relies on `String::push`: appends exactly the one character `c` at the
/// end of the string.
#[verifier::external_body]
fn push_char(s: &mut String, c: char)
    ensures
        final(s)@ == old(s)@.push(c),
{
    s.push(c);
}

/// A name is classified as "underscored" iff it contains at least one `_`.
pub open spec fn is_underscored(s: Seq<char>) -> bool {
    exists|i: int| 0 <= i < s.len() && s[i] == '_'
}

/// Exec counterpart of [`is_underscored`].
pub fn contains_underscore(name: &str) -> (r: bool)
    ensures
        r == is_underscored(name@),
{
    let n = name.unicode_len();
    let mut i: usize = 0;
    while i < n
        invariant
            n == name@.len(),
            0 <= i <= n,
            forall|j: int| 0 <= j < i ==> name@[j] != '_',
        decreases n - i,
    {
        if name.get_char(i) == '_' {
            return true;
        }
        i = i + 1;
    }
    false
}

/// Every ASCII letter lower-cased, all other characters unchanged.
pub open spec fn lower_model(s: Seq<char>) -> Seq<char> {
    s.map_values(|c: char| lower_char(c))
}

/// Every ASCII letter upper-cased, all other characters unchanged.
pub open spec fn upper_model(s: Seq<char>) -> Seq<char> {
    s.map_values(|c: char| upper_char(c))
}

/// Every `_` replaced by `-`, all other characters unchanged.
pub open spec fn dashed_model(s: Seq<char>) -> Seq<char> {
    s.map_values(|c: char| if c == '_' { '-' } else { c })
}

/// Lower-case every ASCII letter of `name`.
pub fn lowercase_all(name: &str) -> (r: String)
    ensures
        r@ == lower_model(name@),
{
    let n = name.unicode_len();
    let mut out = String::new();
    let mut i: usize = 0;
    while i < n
        invariant
            n == name@.len(),
            0 <= i <= n,
            out@ == lower_model(name@.subrange(0, i as int)),
        decreases n - i,
    {
        let c = name.get_char(i);
        push_char(&mut out, to_lower(c));
        proof {
            assert(name@.subrange(0, i + 1).drop_last() =~= name@.subrange(0, i as int));
            assert(lower_model(name@.subrange(0, i + 1)) =~= lower_model(
                name@.subrange(0, i as int),
            ).push(lower_char(name@[i as int])));
        }
        i = i + 1;
    }
    proof {
        assert(name@.subrange(0, n as int) =~= name@);
    }
    out
}

/// Upper-case every ASCII letter of `name`.
pub fn uppercase_all(name: &str) -> (r: String)
    ensures
        r@ == upper_model(name@),
{
    let n = name.unicode_len();
    let mut out = String::new();
    let mut i: usize = 0;
    while i < n
        invariant
            n == name@.len(),
            0 <= i <= n,
            out@ == upper_model(name@.subrange(0, i as int)),
        decreases n - i,
    {
        let c = name.get_char(i);
        push_char(&mut out, to_upper(c));
        proof {
            assert(upper_model(name@.subrange(0, i + 1)) =~= upper_model(
                name@.subrange(0, i as int),
            ).push(upper_char(name@[i as int])));
        }
        i = i + 1;
    }
    proof {
        assert(name@.subrange(0, n as int) =~= name@);
    }
    out
}

/// Replace every `_` of `name` by `-`.
pub fn underscores_to_dashes(name: &str) -> (r: String)
    ensures
        r@ == dashed_model(name@),
{
    let n = name.unicode_len();
    let mut out = String::new();
    let mut i: usize = 0;
    while i < n
        invariant
            n == name@.len(),
            0 <= i <= n,
            out@ == dashed_model(name@.subrange(0, i as int)),
        decreases n - i,
    {
        let c = name.get_char(i);
        if c == '_' {
            push_char(&mut out, '-');
        } else {
            push_char(&mut out, c);
        }
        proof {
            assert(dashed_model(name@.subrange(0, i + 1)) =~= dashed_model(
                name@.subrange(0, i as int),
            ).push(if name@[i as int] == '_' { '-' } else { name@[i as int] }));
        }
        i = i + 1;
    }
    proof {
        assert(name@.subrange(0, n as int) =~= name@);
    }
    out
}

/// One step of boundary insertion: the piece of output contributed by `c`.
/// A separator is inserted before every ASCII upper-case character that is
/// not the first character; every character is then lower-cased (or
/// upper-cased, when `up` is set).
pub open spec fn boundary_piece(c: char, first: bool, sep: char, up: bool) -> Seq<char> {
    let mapped = if up {
        upper_char(c)
    } else {
        lower_char(c)
    };
    if is_ascii_upper(c) && !first {
        seq![sep, mapped]
    } else {
        seq![mapped]
    }
}

/// Boundary insertion over a whole name, `first` telling whether the next
/// character is the first of the name.
pub open spec fn boundary_rec(s: Seq<char>, first: bool, sep: char, up: bool) -> Seq<char>
    decreases s,
{
    if s.len() == 0 {
        Seq::empty()
    } else {
        boundary_piece(s[0], first, sep, up) + boundary_rec(
            s.subrange(1, s.len() as int),
            false,
            sep,
            up,
        )
    }
}

/// A boundary-free name split at its upper-case characters: a separator
/// before every upper-case character except the first character, and every
/// character case-mapped.
pub open spec fn boundary_model(s: Seq<char>, sep: char, up: bool) -> Seq<char> {
    boundary_rec(s, true, sep, up)
}

/// Insert `sep` before every ASCII upper-case character of `name` except
/// the first character, and lower-case (or, with `up`, upper-case) every
/// character.
pub fn insert_boundaries(name: &str, sep: char, up: bool) -> (r: String)
    ensures
        r@ == boundary_model(name@, sep, up),
{
    let n = name.unicode_len();
    let mut out = String::new();
    let mut i: usize = 0;
    proof {
        assert(name@.subrange(0, n as int) =~= name@);
        assert(out@ + boundary_rec(name@, true, sep, up) =~= boundary_rec(name@, true, sep, up));
    }
    while i < n
        invariant
            n == name@.len(),
            0 <= i <= n,
            boundary_model(name@, sep, up) == out@ + boundary_rec(
                name@.subrange(i as int, n as int),
                i == 0,
                sep,
                up,
            ),
        decreases n - i,
    {
        let ghost suf = name@.subrange(i as int, n as int);
        let c = name.get_char(i);
        let mapped = if up {
            to_upper(c)
        } else {
            to_lower(c)
        };
        let first = i == 0;
        if ('A' <= c && c <= 'Z') && !first {
            push_char(&mut out, sep);
        }
        push_char(&mut out, mapped);
        proof {
            assert(suf[0] == name@[i as int]);
            assert(suf.subrange(1, suf.len() as int) =~= name@.subrange(i + 1, n as int));
            assert(out@ + boundary_rec(name@.subrange(i + 1, n as int), false, sep, up)
                =~= boundary_model(name@, sep, up));
        }
        i = i + 1;
    }
    proof {
        assert(name@.subrange(n as int, n as int) =~= Seq::<char>::empty());
    }
    out
}

/// Segment capitalization over an underscored name, `boundary` telling
/// whether the next character starts a segment. Underscores are dropped,
/// the first character of every segment is upper-cased, and every other
/// character is kept unchanged.
pub open spec fn pascal_rec(s: Seq<char>, boundary: bool) -> Seq<char>
    decreases s,
{
    if s.len() == 0 {
        Seq::empty()
    } else {
        let rest = s.subrange(1, s.len() as int);
        if s[0] == '_' {
            pascal_rec(rest, true)
        } else if boundary {
            seq![upper_char(s[0])] + pascal_rec(rest, false)
        } else {
            seq![s[0]] + pascal_rec(rest, false)
        }
    }
}

/// An underscored name in `PascalCase`: split on `_`, empty segments
/// dropped, the first character of every segment upper-cased and nothing
/// else changed.
pub open spec fn pascal_model(s: Seq<char>) -> Seq<char> {
    pascal_rec(s, true)
}

/// Convert an underscored name to `PascalCase`.
pub fn snake_to_pascal(name: &str) -> (r: String)
    ensures
        r@ == pascal_model(name@),
{
    let n = name.unicode_len();
    let mut out = String::new();
    let mut boundary = true;
    let mut i: usize = 0;
    proof {
        assert(name@.subrange(0, n as int) =~= name@);
        assert(out@ + pascal_rec(name@, true) =~= pascal_rec(name@, true));
    }
    while i < n
        invariant
            n == name@.len(),
            0 <= i <= n,
            pascal_model(name@) == out@ + pascal_rec(
                name@.subrange(i as int, n as int),
                boundary,
            ),
        decreases n - i,
    {
        let ghost suf = name@.subrange(i as int, n as int);
        let c = name.get_char(i);
        proof {
            assert(suf[0] == name@[i as int]);
            assert(suf.subrange(1, suf.len() as int) =~= name@.subrange(i + 1, n as int));
        }
        if c == '_' {
            boundary = true;
        } else {
            if boundary {
                push_char(&mut out, to_upper(c));
            } else {
                push_char(&mut out, c);
            }
            boundary = false;
        }
        proof {
            assert(pascal_model(name@) =~= out@ + pascal_rec(
                name@.subrange(i + 1, n as int),
                boundary,
            ));
        }
        i = i + 1;
    }
    proof {
        assert(name@.subrange(n as int, n as int) =~= Seq::<char>::empty());
    }
    out
}

/// Segment joining over an underscored name for `camelCase`. The state
/// says where in the name we stand: while `later` is false we are in or
/// before the first segment, and `flag` records whether a character of
/// that segment has been seen; once `later` is set, `flag` tells whether
/// the next character starts a new segment. Characters of the first
/// segment are lower-cased entirely; the first character of every later
/// segment is upper-cased and the rest kept unchanged.
pub open spec fn camel_rec(s: Seq<char>, later: bool, flag: bool) -> Seq<char>
    decreases s,
{
    if s.len() == 0 {
        Seq::empty()
    } else {
        let rest = s.subrange(1, s.len() as int);
        if s[0] == '_' {
            if later || flag {
                camel_rec(rest, true, true)
            } else {
                camel_rec(rest, false, false)
            }
        } else if !later {
            seq![lower_char(s[0])] + camel_rec(rest, false, true)
        } else if flag {
            seq![upper_char(s[0])] + camel_rec(rest, true, false)
        } else {
            seq![s[0]] + camel_rec(rest, true, false)
        }
    }
}

/// An underscored name in `camelCase`: split on `_`, empty segments
/// dropped, the first segment lower-cased entirely, every later segment
/// upper-cased on its first character and otherwise unchanged.
pub open spec fn camel_model(s: Seq<char>) -> Seq<char> {
    camel_rec(s, false, false)
}

/// Convert an underscored name to `camelCase`.
pub fn snake_to_camel(name: &str) -> (r: String)
    ensures
        r@ == camel_model(name@),
{
    let n = name.unicode_len();
    let mut out = String::new();
    let mut later = false;
    let mut flag = false;
    let mut i: usize = 0;
    proof {
        assert(name@.subrange(0, n as int) =~= name@);
        assert(out@ + camel_rec(name@, false, false) =~= camel_rec(name@, false, false));
    }
    while i < n
        invariant
            n == name@.len(),
            0 <= i <= n,
            camel_model(name@) == out@ + camel_rec(
                name@.subrange(i as int, n as int),
                later,
                flag,
            ),
        decreases n - i,
    {
        let ghost suf = name@.subrange(i as int, n as int);
        let c = name.get_char(i);
        proof {
            assert(suf[0] == name@[i as int]);
            assert(suf.subrange(1, suf.len() as int) =~= name@.subrange(i + 1, n as int));
        }
        if c == '_' {
            if later || flag {
                later = true;
                flag = true;
            }
        } else if !later {
            push_char(&mut out, to_lower(c));
            flag = true;
        } else {
            if flag {
                push_char(&mut out, to_upper(c));
            } else {
                push_char(&mut out, c);
            }
            flag = false;
        }
        proof {
            assert(camel_model(name@) =~= out@ + camel_rec(
                name@.subrange(i + 1, n as int),
                later,
                flag,
            ));
        }
        i = i + 1;
    }
    proof {
        assert(name@.subrange(n as int, n as int) =~= Seq::<char>::empty());
    }
    out
}

/// A boundary-free name in `camelCase`: only the first character is
/// lower-cased, the input being assumed already Pascal.
pub open spec fn first_lower_model(s: Seq<char>) -> Seq<char> {
    if s.len() == 0 {
        Seq::empty()
    } else {
        seq![lower_char(s[0])] + s.subrange(1, s.len() as int)
    }
}

/// Convert a boundary-free (assumed Pascal) name to `camelCase` by
/// lower-casing its first character only.
pub fn pascal_to_camel(name: &str) -> (r: String)
    ensures
        r@ == first_lower_model(name@),
{
    let n = name.unicode_len();
    let mut out = String::new();
    let mut i: usize = 0;
    while i < n
        invariant
            n == name@.len(),
            0 <= i <= n,
            i > 0 ==> out@ =~= first_lower_model(name@).subrange(0, i as int),
            i == 0 ==> out@ =~= Seq::<char>::empty(),
        decreases n - i,
    {
        let c = name.get_char(i);
        if i == 0 {
            push_char(&mut out, to_lower(c));
        } else {
            push_char(&mut out, c);
        }
        proof {
            assert(first_lower_model(name@)[i as int] == if i == 0 {
                lower_char(name@[0])
            } else {
                name@[i as int]
            });
            assert(out@ =~= first_lower_model(name@).subrange(0, i + 1));
        }
        i = i + 1;
    }
    proof {
        if n > 0 {
            assert(first_lower_model(name@).subrange(0, n as int) =~= first_lower_model(name@));
        } else {
            assert(first_lower_model(name@) =~= Seq::<char>::empty());
        }
    }
    out
}

/// Convert a boundary-free name to `snake_case`.
pub fn pascal_to_snake(name: &str) -> (r: String)
    ensures
        r@ == boundary_model(name@, '_', false),
{
    insert_boundaries(name, '_', false)
}

/// Convert a boundary-free name to `SCREAMING_SNAKE_CASE`.
pub fn pascal_to_screaming_snake(name: &str) -> (r: String)
    ensures
        r@ == boundary_model(name@, '_', true),
{
    insert_boundaries(name, '_', true)
}

/// Convert a boundary-free name to `kebab-case`.
pub fn pascal_to_kebab(name: &str) -> (r: String)
    ensures
        r@ == boundary_model(name@, '-', false),
{
    insert_boundaries(name, '-', false)
}

/// The renaming of a name under a rule. The name's detected casing —
/// underscored iff it contains a `_` — selects which converter the rule
/// uses.
pub open spec fn rename_model(s: Seq<char>, rule: NamingRule) -> Seq<char> {
    match rule {
        NamingRule::Identity => s,
        NamingRule::Lowercase => lower_model(s),
        NamingRule::Uppercase => upper_model(s),
        NamingRule::PascalCase => if is_underscored(s) {
            pascal_model(s)
        } else {
            s
        },
        NamingRule::CamelCase => if is_underscored(s) {
            camel_model(s)
        } else {
            first_lower_model(s)
        },
        NamingRule::SnakeCase => if is_underscored(s) {
            s
        } else {
            boundary_model(s, '_', false)
        },
        NamingRule::ScreamingSnakeCase => if is_underscored(s) {
            upper_model(s)
        } else {
            boundary_model(s, '_', true)
        },
        NamingRule::KebabCase => if is_underscored(s) {
            dashed_model(s)
        } else {
            boundary_model(s, '-', false)
        },
    }
}

/// Apply a renaming rule to one declared name. Total: every rule is
/// defined on every input.
pub fn apply_rename_rule(name: &str, rule: NamingRule) -> (r: String)
    ensures
        r@ == rename_model(name@, rule),
{
    match rule {
        NamingRule::Identity => name.to_owned(),
        NamingRule::Lowercase => lowercase_all(name),
        NamingRule::Uppercase => uppercase_all(name),
        NamingRule::PascalCase => if contains_underscore(name) {
            snake_to_pascal(name)
        } else {
            name.to_owned()
        },
        NamingRule::CamelCase => if contains_underscore(name) {
            snake_to_camel(name)
        } else {
            pascal_to_camel(name)
        },
        NamingRule::SnakeCase => if contains_underscore(name) {
            name.to_owned()
        } else {
            pascal_to_snake(name)
        },
        NamingRule::ScreamingSnakeCase => if contains_underscore(name) {
            uppercase_all(name)
        } else {
            pascal_to_screaming_snake(name)
        },
        NamingRule::KebabCase => if contains_underscore(name) {
            underscores_to_dashes(name)
        } else {
            pascal_to_kebab(name)
        },
    }
}

/// An empty name renames to the empty string under every rule.
pub proof fn lemma_rename_empty(rule: NamingRule)
    ensures
        rename_model(Seq::empty(), rule) == Seq::<char>::empty(),
{
    let e = Seq::<char>::empty();
    assert(lower_model(e) =~= Seq::<char>::empty());
    assert(upper_model(e) =~= Seq::<char>::empty());
    assert(dashed_model(e) =~= Seq::<char>::empty());
}

} // verus!
