//! The string-conversion generator: for an enumeration whose variants
//! carry no payload, a per-type name table maps each declared variant
//! identifier to its rule-transformed display string. The table yields a
//! total stringify function and a partial parse function; parsing is
//! well-defined when the table is injective.

use vstd::prelude::*;
use vstd::string::StringExecFns;
use crate::naming::NamingRule;
use crate::naming::rename_model;
use crate::naming::apply_rename_rule;

verus! {

/// The name table of an enumeration: each variant's declared identifier
/// paired with its display string under the rule.
pub open spec fn table_model(vs: Seq<Seq<char>>, rule: NamingRule) -> Seq<(Seq<char>, Seq<char>)> {
    vs.map_values(|v: Seq<char>| (v, rename_model(v, rule)))
}

/// No two entries of the table show the same display string.
pub open spec fn injective_table(t: Seq<(Seq<char>, Seq<char>)>) -> bool {
    forall|i: int, j: int|
        0 <= i < t.len() && 0 <= j < t.len() && i != j ==> (#[trigger] t[i]).1 != (#[trigger] t[j]).1
}

/// The display string of the variant at `i`.
pub open spec fn stringify_model(t: Seq<(Seq<char>, Seq<char>)>, i: int) -> Seq<char> {
    t[i].1
}

/// The variant whose display string equals `input`: the first match, or
/// nothing when no entry matches.
pub open spec fn parse_model(t: Seq<(Seq<char>, Seq<char>)>, input: Seq<char>) -> Option<int>
    decreases t,
{
    if t.len() == 0 {
        None
    } else if t[0].1 == input {
        Some(0)
    } else {
        match parse_model(t.subrange(1, t.len() as int), input) {
            Some(k) => Some(k + 1),
            None => None,
        }
    }
}

/// A successful parse is the first matching entry; a failed parse means no
/// entry matches.
pub proof fn lemma_parse_model_first_match(t: Seq<(Seq<char>, Seq<char>)>, input: Seq<char>)
    ensures
        (match parse_model(t, input) {
            Some(k) => 0 <= k < t.len() && t[k].1 == input && forall|j: int|
                0 <= j < k ==> (#[trigger] t[j]).1 != input,
            None => forall|j: int| 0 <= j < t.len() ==> (#[trigger] t[j]).1 != input,
        }),
    decreases t,
{
    if t.len() > 0 && t[0].1 != input {
        lemma_parse_model_first_match(t.subrange(1, t.len() as int), input);
        let rest = t.subrange(1, t.len() as int);
        match parse_model(rest, input) {
            Some(k) => {
                assert(forall|j: int| 0 <= j < k ==> (#[trigger] rest[j]).1 != input);
                assert(forall|j: int| 1 <= j < k + 1 ==> (#[trigger] t[j]).1 == rest[j - 1].1);
            },
            None => {
                assert(forall|j: int| 1 <= j < t.len() ==> (#[trigger] t[j]).1 == rest[j - 1].1);
            },
        }
    }
}

/// Build the name table of an enumeration from its declared variant
/// identifiers, in declaration order, under the active rule.
pub fn name_table(variants: &Vec<String>, rule: NamingRule) -> (r: Vec<(String, String)>)
    ensures
        r@.len() == variants@.len(),
        forall|i: int|
            0 <= i < r@.len() ==> ((#[trigger] r@[i]).0@, r@[i].1@) == table_model(
                variants@.map_values(|v: String| v@),
                rule,
            )[i],
{
    let ghost vs = variants@.map_values(|v: String| v@);
    let mut out: Vec<(String, String)> = Vec::new();
    let n = variants.len();
    let mut i: usize = 0;
    while i < n
        invariant
            n == variants@.len(),
            vs == variants@.map_values(|v: String| v@),
            0 <= i <= n,
            out@.len() == i,
            forall|j: int|
                0 <= j < i ==> ((#[trigger] out@[j]).0@, out@[j].1@) == table_model(vs, rule)[j],
        decreases n - i,
    {
        let ident = variants[i].clone();
        let display = apply_rename_rule(ident.as_str(), rule);
        out.push((ident, display));
        i = i + 1;
    }
    out
}

/// Whether two strings hold the same characters.
pub fn str_eq(a: &str, b: &str) -> (r: bool)
    ensures
        r == (a@ == b@),
{
    let na = a.unicode_len();
    let nb = b.unicode_len();
    if na != nb {
        return false;
    }
    let mut i: usize = 0;
    while i < na
        invariant
            na == a@.len(),
            nb == b@.len(),
            na == nb,
            0 <= i <= na,
            forall|j: int| 0 <= j < i ==> a@[j] == b@[j],
        decreases na - i,
    {
        if a.get_char(i) != b.get_char(i) {
            return false;
        }
        i = i + 1;
    }
    proof {
        assert(a@ =~= b@);
    }
    true
}

/// Whether the table is injective: no two entries show the same display
/// string. An enumeration whose renamed variants collide is a
/// configuration error to surface at generation time.
pub fn table_is_injective(table: &Vec<(String, String)>) -> (r: bool)
    ensures
        r == injective_table(
            table@.map_values(|e: (String, String)| (e.0@, e.1@)),
        ),
{
    let ghost t = table@.map_values(|e: (String, String)| (e.0@, e.1@));
    let n = table.len();
    let mut i: usize = 0;
    while i < n
        invariant
            n == table@.len(),
            t == table@.map_values(|e: (String, String)| (e.0@, e.1@)),
            0 <= i <= n,
            forall|p: int, q: int|
                0 <= p < i && 0 <= q < n && p != q ==> (#[trigger] t[p]).1 != (#[trigger] t[q]).1,
        decreases n - i,
    {
        let mut j: usize = 0;
        while j < n
            invariant
                n == table@.len(),
                t == table@.map_values(|e: (String, String)| (e.0@, e.1@)),
                0 <= i < n,
                0 <= j <= n,
                forall|q: int| 0 <= q < j && q != i ==> t[i as int].1 != (#[trigger] t[q]).1,
            decreases n - j,
        {
            if j != i {
                if str_eq(table[i].1.as_str(), table[j].1.as_str()) {
                    proof {
                        assert(t[i as int].1 == table@[i as int].1@);
                        assert(t[j as int].1 == table@[j as int].1@);
                        assert(t[i as int].1 == t[j as int].1);
                        assert(!injective_table(t));
                    }
                    return false;
                }
            }
            j = j + 1;
        }
        i = i + 1;
    }
    true
}

/// The display string of one variant of the table: total over the table's
/// indices.
pub fn stringify_variant(table: &Vec<(String, String)>, i: usize) -> (r: String)
    requires
        i < table@.len(),
    ensures
        r@ == stringify_model(table@.map_values(|e: (String, String)| (e.0@, e.1@)), i as int),
{
    table[i].1.clone()
}

/// Look `input` up against the table's display strings. Returns the first
/// matching variant; when no entry matches, fails with a message carrying
/// the declaring type's name and the offending input.
pub fn parse_variant(enum_name: &str, table: &Vec<(String, String)>, input: &str) -> (r: Result<
    usize,
    String,
>)
    ensures
        (match r {
            Ok(i) => parse_model(
                table@.map_values(|e: (String, String)| (e.0@, e.1@)),
                input@,
            ) == Some(i as int),
            Err(e) => parse_model(
                table@.map_values(|e: (String, String)| (e.0@, e.1@)),
                input@,
            ) is None && e@ == "Unknown "@ + enum_name@ + ": "@ + input@,
        }),
{
    let ghost t = table@.map_values(|e: (String, String)| (e.0@, e.1@));
    proof {
        lemma_parse_model_first_match(t, input@);
    }
    let n = table.len();
    let mut i: usize = 0;
    while i < n
        invariant
            n == table@.len(),
            t == table@.map_values(|e: (String, String)| (e.0@, e.1@)),
            0 <= i <= n,
            forall|j: int| 0 <= j < i ==> (#[trigger] t[j]).1 != input@,
        decreases n - i,
    {
        if str_eq(table[i].1.as_str(), input) {
            proof {
                lemma_parse_model_first_match(t, input@);
                assert(t[i as int].1 == table@[i as int].1@);
                assert(t[i as int].1 == input@);
                match parse_model(t, input@) {
                    Some(k) => {
                        if k < i as int {
                            assert(t[k].1 != input@);
                            assert(false);
                        }
                        if k > i as int {
                            assert(t[i as int].1 != input@);
                            assert(false);
                        }
                    },
                    None => {
                        assert(false);
                    },
                }
            }
            return Ok(i);
        }
        proof {
            assert(t[i as int].1 == table@[i as int].1@);
        }
        i = i + 1;
    }
    let message = "Unknown ".to_owned().concat(enum_name).concat(": ").concat(input);
    proof {
        lemma_parse_model_first_match(t, input@);
        match parse_model(t, input@) {
            Some(k) => {
                assert(t[k].1 == input@);
                assert(false);
            },
            None => {},
        }
    }
    Err(message)
}

/// For every variant of an injective name table, parsing that variant's
/// display string succeeds and returns exactly that variant.
pub proof fn lemma_string_conversion_round_trip(t: Seq<(Seq<char>, Seq<char>)>, i: int)
    requires
        injective_table(t),
        0 <= i < t.len(),
    ensures
        parse_model(t, stringify_model(t, i)) == Some(i),
{
    lemma_parse_model_first_match(t, t[i].1);
    match parse_model(t, t[i].1) {
        Some(k) => {
            if k != i {
                assert(t[k].1 == t[i].1);
                assert(false);
            }
        },
        None => {
            assert(t[i].1 == t[i].1);
            assert(false);
        },
    }
}

} // verus!
