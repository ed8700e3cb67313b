//! The candidate registry: the set of known candidate names, parsed from the
//! comma-separated candidates manifest.
//!
//! The caller reads the manifest file and hands its content in as a string;
//! parsing and membership checks are done here. A candidate name is valid only
//! if it appears in the loaded set; validity is checked, never assumed.

use vstd::prelude::*;

use crate::text::{trim, trimmed};

verus! {

/// The raw comma-separated fields of `s`: one field between consecutive
/// commas, possibly empty, and always at least one field.
pub open spec fn comma_fields(s: Seq<char>) -> Seq<Seq<char>>
    decreases s.len(),
{
    if s.len() == 0 {
        seq![Seq::<char>::empty()]
    } else if s[0] == ',' {
        seq![Seq::<char>::empty()] + comma_fields(s.drop_first())
    } else {
        let rest = comma_fields(s.drop_first());
        seq![seq![s[0]] + rest[0]] + rest.drop_first()
    }
}

/// The candidate names a manifest with content `s` declares: its
/// comma-separated fields, each trimmed.
pub open spec fn manifest_candidates(s: Seq<char>) -> Seq<Seq<char>> {
    comma_fields(s).map_values(|f: Seq<char>| trimmed(f))
}

proof fn lemma_comma_fields_nonempty(s: Seq<char>)
    ensures
        comma_fields(s).len() >= 1,
    decreases s.len(),
{
    if s.len() == 0 {
    } else if s[0] == ',' {
    } else {
        lemma_comma_fields_nonempty(s.drop_first());
    }
}

/// Parses the content of the candidates manifest: splits it at every comma
/// and trims each field.
pub fn known_candidates(content: &str) -> (r: Vec<String>)
    ensures
        r.deep_view() == manifest_candidates(content@),
{
    let n = content.unicode_len();
    let mut fields: Vec<String> = Vec::new();
    let ghost mut raw_done: Seq<Seq<char>> = Seq::empty();
    let mut start_f: usize = 0;
    let mut i: usize = 0;
    proof {
        lemma_comma_fields_nonempty(content@);
        assert(content@.subrange(0, n as int) =~= content@);
        assert(comma_fields(content@) =~~= raw_done + seq![
            content@.subrange(0, 0) + comma_fields(content@.subrange(0, n as int))[0],
        ] + comma_fields(content@.subrange(0, n as int)).drop_first());
    }
    while i < n
        invariant
            n == content@.len(),
            start_f <= i <= n,
            comma_fields(content@) == raw_done + seq![
                content@.subrange(start_f as int, i as int) + comma_fields(
                    content@.subrange(i as int, n as int),
                )[0],
            ] + comma_fields(content@.subrange(i as int, n as int)).drop_first(),
            fields.deep_view() == raw_done.map_values(|f: Seq<char>| trimmed(f)),
        decreases n - i,
    {
        let ghost rem = content@.subrange(i as int, n as int);
        let ghost rem2 = content@.subrange(i as int + 1, n as int);
        proof {
            lemma_comma_fields_nonempty(rem2);
            assert(rem.drop_first() =~= rem2);
            assert(rem[0] == content@[i as int]);
        }
        let c = content.get_char(i);
        if c == ',' {
            let field = content.substring_char(start_f, i);
            let t = trim(field);
            let ghost pre = fields.deep_view();
            fields.push(t);
            proof {
                let raw = content@.subrange(start_f as int, i as int);
                assert(comma_fields(rem) == seq![Seq::<char>::empty()] + comma_fields(rem2));
                assert(raw + comma_fields(rem)[0] =~= raw);
                assert(comma_fields(rem).drop_first() =~= comma_fields(rem2));
                assert(comma_fields(content@) =~~= (raw_done + seq![raw]) + seq![
                    content@.subrange(i as int + 1, i as int + 1) + comma_fields(rem2)[0],
                ] + comma_fields(rem2).drop_first()) by {
                    assert(content@.subrange(i as int + 1, i as int + 1)
                        =~= Seq::<char>::empty());
                    assert(seq![comma_fields(rem2)[0]] + comma_fields(rem2).drop_first()
                        =~= comma_fields(rem2));
                }
                raw_done = raw_done + seq![raw];
                assert(fields.deep_view() =~~= raw_done.map_values(
                    |f: Seq<char>| trimmed(f),
                )) by {
                    let dv = fields.deep_view();
                    let mv = raw_done.map_values(|f: Seq<char>| trimmed(f));
                    assert(dv.len() == pre.len() + 1);
                    assert(mv.len() == raw_done.len());
                    assert forall|j: int| 0 <= j < dv.len() implies dv[j] == mv[j] by {
                        if j < pre.len() {
                            assert(dv[j] == pre[j]);
                        } else {
                            assert(dv[j] == t@);
                        }
                    }
                }
            }
            start_f = i + 1;
        } else {
            proof {
                let raw = content@.subrange(start_f as int, i as int);
                let raw2 = content@.subrange(start_f as int, i as int + 1);
                assert(comma_fields(rem) == seq![seq![rem[0]] + comma_fields(rem2)[0]]
                    + comma_fields(rem2).drop_first());
                assert(raw2 =~= raw + seq![content@[i as int]]);
                assert(raw2 + comma_fields(rem2)[0] =~= raw + comma_fields(rem)[0]);
                assert(comma_fields(rem).drop_first() =~= comma_fields(rem2).drop_first());
            }
        }
        i += 1;
    }
    let field = content.substring_char(start_f, n);
    let t = trim(field);
    let ghost pre = fields.deep_view();
    fields.push(t);
    proof {
        let raw = content@.subrange(start_f as int, n as int);
        assert(content@.subrange(n as int, n as int) =~= Seq::<char>::empty());
        assert(comma_fields(content@.subrange(n as int, n as int))
            == seq![Seq::<char>::empty()]);
        assert(raw + comma_fields(content@.subrange(n as int, n as int))[0] =~= raw);
        assert(comma_fields(content@) =~~= raw_done + seq![raw]);
        raw_done = raw_done + seq![raw];
        assert(fields.deep_view() =~~= raw_done.map_values(|f: Seq<char>| trimmed(f))) by {
            let dv = fields.deep_view();
            assert forall|j: int| 0 <= j < dv.len() implies dv[j]
                == raw_done.map_values(|f: Seq<char>| trimmed(f))[j] by {
                if j < pre.len() {
                    assert(dv[j] == pre[j]);
                } else {
                    assert(dv[j] == t@);
                }
            }
        }
    }
    fields
}

/// Whether `name` occurs in `list`.
pub open spec fn contains_name(list: Seq<Seq<char>>, name: Seq<char>) -> bool {
    exists|k: int| 0 <= k < list.len() && list[k] == name
}

/// Whether `name` is one of the loaded candidate names.
pub fn contains_candidate(all: &Vec<String>, name: &String) -> (r: bool)
    ensures
        r == contains_name(all.deep_view(), name@),
{
    let mut k: usize = 0;
    while k < all.len()
        invariant
            k <= all.len(),
            forall|j: int| 0 <= j < k ==> all.deep_view()[j] != name@,
        decreases all.len() - k,
    {
        if all[k] == *name {
            assert(all.deep_view()[k as int] == name@);
            return true;
        }
        k += 1;
    }
    false
}

/// Rejection of a candidate name that the loaded set does not hold.
pub struct UnknownCandidateError {
    pub candidate: String,
}

/// Accepts `candidate` only if it appears in the loaded candidate set;
/// otherwise the name is rejected. Nothing but the returned value is touched.
pub fn validate_candidate(all_candidates: &Vec<String>, candidate: &String) -> (r: Result<
    String,
    UnknownCandidateError,
>)
    ensures
        r is Ok <==> contains_name(all_candidates.deep_view(), candidate@),
        r matches Ok(c) ==> c@ == candidate@,
        r matches Err(e) ==> e.candidate@ == candidate@,
{
    if contains_candidate(all_candidates, candidate) {
        Ok(candidate.clone())
    } else {
        Err(UnknownCandidateError { candidate: candidate.clone() })
    }
}

} // verus!
