//! The file emitter: assembles an ordered list of (exported name,
//! structural string) pairs into one text artifact, one export statement
//! per pair, under a fixed header comment. Pure text assembly; writing the
//! result to storage is the caller's affair.

use vstd::prelude::*;
use vstd::string::StringExecFns;

verus! {

/// One emitted declaration: an export statement terminated by a semicolon
/// and followed by a blank line.
pub open spec fn entry_model(name: Seq<char>, ts: Seq<char>) -> Seq<char> {
    "export type "@ + name + " = "@ + ts + ";\n\n"@
}

/// The emitted declarations of an ordered list, concatenated.
pub open spec fn entries_model(es: Seq<(Seq<char>, Seq<char>)>) -> Seq<char>
    decreases es,
{
    if es.len() == 0 {
        Seq::empty()
    } else {
        entries_model(es.subrange(0, es.len() - 1)) + entry_model(
            es[es.len() - 1].0,
            es[es.len() - 1].1,
        )
    }
}

/// The whole emitted file: the fixed header comment, a blank line, then
/// the declarations in order.
pub open spec fn ts_file_model(es: Seq<(Seq<char>, Seq<char>)>) -> Seq<char> {
    "// This file is auto-generated by schema-bridge\n\n"@ + entries_model(es)
}

/// Assemble the full emitted text for an ordered list of (exported name,
/// structural string) pairs. Deterministic: the text is a function of the
/// list alone.
pub fn generate_ts_file(types: Vec<(&str, String)>) -> (r: String)
    ensures
        r@ == ts_file_model(types@.map_values(|p: (&str, String)| (p.0@, p.1@))),
{
    let ghost es = types@.map_values(|p: (&str, String)| (p.0@, p.1@));
    let mut content = "// This file is auto-generated by schema-bridge\n\n".to_owned();
    let n = types.len();
    let mut i: usize = 0;
    proof {
        assert(es.subrange(0, 0) =~= Seq::<(Seq<char>, Seq<char>)>::empty());
        assert(content@ =~= content@ + entries_model(es.subrange(0, 0)));
    }
    while i < n
        invariant
            n == types@.len(),
            es == types@.map_values(|p: (&str, String)| (p.0@, p.1@)),
            0 <= i <= n,
            content@ == "// This file is auto-generated by schema-bridge\n\n"@ + entries_model(
                es.subrange(0, i as int),
            ),
        decreases n - i,
    {
        let entry = &types[i];
        content.append("export type ");
        content.append(entry.0);
        content.append(" = ");
        content.append(entry.1.as_str());
        content.append(";\n\n");
        proof {
            assert(es[i as int] == (types@[i as int].0@, types@[i as int].1@));
            assert(es.subrange(0, i + 1).subrange(0, i as int) =~= es.subrange(0, i as int));
            assert(es.subrange(0, i + 1)[i as int] == es[i as int]);
            assert(content@ =~= "// This file is auto-generated by schema-bridge\n\n"@
                + entries_model(es.subrange(0, i + 1)));
        }
        i = i + 1;
    }
    proof {
        assert(es.subrange(0, n as int) =~= es);
    }
    content
}

/// Emission is deterministic: the same ordered list yields byte-identical
/// text, however often it is emitted.
pub proof fn lemma_emission_deterministic(
    es: Seq<(Seq<char>, Seq<char>)>,
    r1: Seq<char>,
    r2: Seq<char>,
)
    requires
        r1 == ts_file_model(es),
        r2 == ts_file_model(es),
    ensures
        r1 == r2,
{
}

} // verus!
