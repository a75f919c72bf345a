use vstd::prelude::*;
use vstd::string::StrSliceExecFns;

verus! {

/// Character-for-character string equality, stated over the views.
pub fn str_eq(a: &str, b: &str) -> (r: bool)
    ensures
        r == (a@ == b@),
{
    let a_len = a.unicode_len();
    let b_len = b.unicode_len();
    if a_len != b_len {
        proof {
            assert(a@ != b@) by {
                assert(a@.len() != b@.len());
            }
        }
        return false;
    }
    let mut i: usize = 0;
    while i < a_len
        invariant
            i <= a_len,
            a_len == a@.len(),
            a_len == b@.len(),
            forall|j: int| 0 <= j < i ==> a@[j] == b@[j],
        decreases a_len - i,
    {
        if a.get_char(i) != b.get_char(i) {
            return false;
        }
        i = i + 1;
    }
    proof {
        assert(a@ =~= b@);
    }
    true
}

/// The ordinal severity of a status label together with an optional
/// requested deployment state: 0 for the healthy labels, 1 for the busy
/// ones (both checked first, so they win over a disabled override),
/// -1 for anything else explicitly disabled, and 2 for the unknown rest.
pub open spec fn severity_spec(status: Seq<char>, deployment: Option<Seq<char>>) -> int {
    if status == "Active"@ || status == "Enabled"@ || status == "Running"@ {
        0
    } else if status == "Busy"@ || status == "Passive"@ {
        1
    } else if deployment is Some && deployment.unwrap() == "Disabled"@ {
        -1
    } else {
        2
    }
}

/// The evaluation is total over the open vocabulary: every status and
/// deployment-state pair lands on one of the four severities.
pub proof fn lemma_evaluate_total(status: Seq<char>, deployment: Option<Seq<char>>)
    ensures
        severity_spec(status, deployment) == -1 || severity_spec(status, deployment) == 0
            || severity_spec(status, deployment) == 1 || severity_spec(status, deployment) == 2,
{
}

/// View of an optional borrowed deployment-state string.
pub open spec fn deployment_view(deployment: Option<&String>) -> Option<Seq<char>> {
    match deployment {
        Some(d) => Some(d@),
        None => None,
    }
}

/// Maps a status label and an optional deployment state onto the ordinal
/// severity scale. Total: every unrecognized label falls through to 2.
pub fn get_status_as_value(status: &String, deployment: Option<&String>) -> (r: i8)
    ensures
        r as int == severity_spec(status@, deployment_view(deployment)),
        -1 <= r <= 2,
{
    let s = status.as_str();
    if str_eq(s, "Active") || str_eq(s, "Enabled") || str_eq(s, "Running") {
        0
    } else if str_eq(s, "Busy") || str_eq(s, "Passive") {
        1
    } else {
        match deployment {
            None => 2,
            Some(state) => {
                if str_eq(state.as_str(), "Disabled") {
                    -1
                } else {
                    2
                }
            },
        }
    }
}

} // verus!
