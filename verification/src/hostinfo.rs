//! Process identity parsed from the instance's hostname.
//!
//! A hostname has the shape `<deployment>-<replica-set>-<pod-suffix>`; the
//! pod discriminator is its last dash-separated token and the deployment
//! discriminator the third token from the end. A hostname with fewer than
//! three tokens is malformed, a startup-fatal condition for the caller.

use vstd::prelude::*;
use vstd::string::StrSliceExecFns;

verus! {

/// The index of the last occurrence of `sep`, or -1 when absent.
pub open spec fn last_sep(s: Seq<char>, sep: char) -> int
    decreases s,
{
    if s.len() == 0 {
        -1
    } else if s.last() == sep {
        s.len() - 1
    } else {
        last_sep(s.drop_last(), sep)
    }
}

/// `last_sep` points at the last separator, and is -1 exactly when there
/// is none.
pub proof fn lemma_last_sep(s: Seq<char>, sep: char)
    ensures
        -1 <= last_sep(s, sep) < s.len(),
        last_sep(s, sep) == -1 <==> (forall|i: int| 0 <= i < s.len() ==> s[i] != sep),
        last_sep(s, sep) >= 0 ==> s[last_sep(s, sep)] == sep && (forall|j: int|
            last_sep(s, sep) < j < s.len() ==> s[j] != sep),
    decreases s.len(),
{
    if s.len() > 0 && s.last() != sep {
        lemma_last_sep(s.drop_last(), sep);
        assert(forall|i: int| 0 <= i < s.len() - 1 ==> s.drop_last()[i] == s[i]);
    }
}

/// The separator-delimited tokens of a string, in order. A string without the
/// separator is one token; every separator ends a token, so adjacent
/// separators yield empty tokens.
pub open spec fn split_on(s: Seq<char>, sep: char) -> Seq<Seq<char>>
    decreases s.len(),
{
    if last_sep(s, sep) < 0 {
        seq![s]
    } else {
        proof {
            lemma_last_sep(s, sep);
        }
        split_on(s.subrange(0, last_sep(s, sep)), sep).push(
            s.subrange(last_sep(s, sep) + 1, s.len() as int),
        )
    }
}

/// The index of the last occurrence of the separator, if any.
fn find_last_sep(s: &str, sep: char) -> (r: Option<usize>)
    ensures
        match r {
            Some(i) => last_sep(s@, sep) == i as int,
            None => last_sep(s@, sep) == -1,
        },
{
    proof {
        lemma_last_sep(s@, sep);
    }
    let n = s.unicode_len();
    let mut i = n;
    while i > 0
        invariant
            i <= n == s@.len(),
            forall|j: int| i <= j < s@.len() ==> s@[j] != sep,
            -1 <= last_sep(s@, sep) < s@.len(),
            last_sep(s@, sep) == -1 <==> (forall|j: int| 0 <= j < s@.len() ==> s@[j] != sep),
            last_sep(s@, sep) >= 0 ==> s@[last_sep(s@, sep)] == sep && (forall|j: int|
                last_sep(s@, sep) < j < s@.len() ==> s@[j] != sep),
        decreases i,
    {
        i = i - 1;
        if s.get_char(i) == sep {
            return Some(i);
        }
    }
    None
}

/// Splits a string into the tokens between occurrences of a separator.
pub fn split_on_char(s: &str, sep: char) -> (r: Vec<String>)
    ensures
        r@.map_values(|t: String| t@) == split_on(s@, sep),
    decreases s@.len(),
{
    proof {
        lemma_last_sep(s@, sep);
    }
    match find_last_sep(s, sep) {
        None => {
            let mut out: Vec<String> = Vec::new();
            out.push(s.to_owned());
            proof {
                assert(out@.map_values(|t: String| t@) =~= seq![s@]);
            }
            out
        },
        Some(i) => {
            let n = s.unicode_len();
            let head = s.substring_char(0, i);
            let tail = s.substring_char(i + 1, n);
            let mut parts = split_on_char(head, sep);
            let ghost parts0 = parts@;
            parts.push(tail.to_owned());
            proof {
                assert(parts@.map_values(|t: String| t@) =~= parts0.map_values(
                    |t: String| t@,
                ).push(tail@));
            }
            parts
        },
    }
}

/// Parses the pod and deployment discriminators out of a hostname: the
/// last and the third-from-last dash-separated tokens. `None` when the
/// hostname has fewer than three tokens.
pub fn get_pod_info(hostname: &str) -> (r: Option<(String, String)>)
    ensures
        r is Some <==> split_on(hostname@, '-').len() >= 3,
        r matches Some(p) ==> p.0@ == split_on(hostname@, '-').last() && p.1@ == split_on(
            hostname@,
            '-',
        )[split_on(hostname@, '-').len() - 3],
{
    let tokens = split_on_char(hostname, '-');
    if tokens.len() < 3 {
        return None;
    }
    let pod_id = tokens[tokens.len() - 1].clone();
    let deployment_id = tokens[tokens.len() - 3].clone();
    Some((pod_id, deployment_id))
}

} // verus!
